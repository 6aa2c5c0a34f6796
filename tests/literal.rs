use calculator::literal::{float_literal_ok, run_end};

fn chars(s: &str) -> Vec<char> {
    s.chars().collect()
}

#[test]
fn literal_grammar_agrees_with_float_parsing() {
    let cases = [
        "", "+", "-", ".", "..", "0", "00", "5.", ".5", "+.5", "-5.25", "1.2.3", "1e", "1e+",
        "1e+5", "1E-7", "e5", ".e5", "1.e5", "1e5.0", "1e5e5", "inf", "INF", "-Inf", "+infinity",
        "InFiNiTy", "infin", "nan", "NaN", "-nan", "nana", "1_000", " 1", "1 ", "0x10", "1e999",
        "ınf", "\u{ff11}",
    ];
    for s in cases {
        assert_eq!(float_literal_ok(&chars(s)), s.parse::<f64>().is_ok(), "literal {:?}", s);
    }
}

#[test]
fn run_end_stops_at_first_non_numeric() {
    assert_eq!(run_end(&chars("12.5+3"), 0), 4);
    assert_eq!(run_end(&chars("12.5"), 0), 4);
    assert_eq!(run_end(&chars("-5"), 0), 0);
    assert_eq!(run_end(&chars("a12b"), 1), 3);
    assert_eq!(run_end(&chars(""), 0), 0);
}
