use calculator::expression::{parse_expression, remove_whitespace, EvalError, Expression};
use calculator::operator::{Operator, ParseError};

fn parts(e: &Expression) -> (String, Operator, String) {
    (e.left().to_string(), e.operator(), e.right().to_string())
}

fn expr(left: &str, operator: Operator, right: &str) -> (String, Operator, String) {
    (left.to_string(), operator, right.to_string())
}

fn parsed(line: &str) -> (String, Operator, String) {
    parts(&parse_expression(line).unwrap())
}

fn value(text: &str) -> f64 {
    text.parse::<f64>().unwrap()
}

#[test]
fn whitespace_is_insignificant() {
    assert_eq!(parse_expression("3+4"), parse_expression(" 3 + 4 "));
    assert_eq!(parse_expression("3+4"), parse_expression("\t3\u{3000}+\n 4\u{a0}"));
    assert_eq!(parsed("1 2 . 5 * 2"), expr("12.5", Operator::Multiply, "2"));
}

#[test]
fn remove_whitespace_keeps_other_characters() {
    let out = remove_whitespace(" a\tb\u{2003}c\r\n");
    assert_eq!(out, vec!['a', 'b', 'c']);
}

#[test]
fn addition_parses_and_evaluates() {
    let e = parse_expression("3+4").unwrap();
    assert_eq!(parts(&e), expr("3", Operator::Add, "4"));
    assert_eq!(e.check_evaluable(value(e.right()) == 0.0), Ok(()));
    assert_eq!(value(e.left()) + value(e.right()), 7.0);
}

#[test]
fn division_by_zero_parses_but_fails_to_evaluate() {
    let e = parse_expression("10/0").unwrap();
    assert_eq!(parts(&e), expr("10", Operator::Divide, "0"));
    assert_eq!(e.check_evaluable(value(e.right()) == 0.0), Err(EvalError::DivideByZero));
}

#[test]
fn division_by_nonzero_evaluates() {
    let e = parse_expression("10/4").unwrap();
    assert_eq!(e.check_evaluable(value(e.right()) == 0.0), Ok(()));
}

#[test]
fn zero_divisor_matters_only_for_division() {
    for line in ["1+0", "1-0", "1*0", "1^0"] {
        assert_eq!(parse_expression(line).unwrap().check_evaluable(true), Ok(()));
    }
    assert_eq!(parse_expression("1/0").unwrap().check_evaluable(false), Ok(()));
}

#[test]
fn letters_on_the_left_are_rejected() {
    assert_eq!(
        parse_expression("abc+4"),
        Err(ParseError::InvalidLeftOperand { token: String::new() })
    );
}

#[test]
fn a_lone_number_lacks_an_operator() {
    assert_eq!(parse_expression("5"), Err(ParseError::MissingOperator));
    assert_eq!(parse_expression(" 5.25 "), Err(ParseError::MissingOperator));
}

#[test]
fn a_missing_right_operand_is_rejected() {
    assert_eq!(
        parse_expression("5+"),
        Err(ParseError::InvalidRightOperand { token: String::new() })
    );
}

#[test]
fn power_parses_and_evaluates() {
    let e = parse_expression("2^10").unwrap();
    assert_eq!(parts(&e), expr("2", Operator::Power, "10"));
    assert_eq!(value(e.left()).powf(value(e.right())), 1024.0);
}

#[test]
fn leading_minus_is_the_operator_position() {
    assert_eq!(
        parse_expression("-5+3"),
        Err(ParseError::InvalidLeftOperand { token: String::new() })
    );
}

#[test]
fn empty_line_has_no_left_operand() {
    assert_eq!(
        parse_expression("   "),
        Err(ParseError::InvalidLeftOperand { token: String::new() })
    );
}

#[test]
fn two_points_on_the_left_are_rejected() {
    assert_eq!(
        parse_expression("3.5.1+2"),
        Err(ParseError::InvalidLeftOperand { token: "3.5.1".to_string() })
    );
    assert_eq!(
        parse_expression(".+2"),
        Err(ParseError::InvalidLeftOperand { token: ".".to_string() })
    );
}

#[test]
fn unknown_operator_is_rejected() {
    assert_eq!(parse_expression("3%4"), Err(ParseError::InvalidOperator { symbol: '%' }));
    assert_eq!(parse_expression("1e3+2"), Err(ParseError::InvalidOperator { symbol: 'e' }));
}

#[test]
fn malformed_right_operand_is_rejected() {
    assert_eq!(
        parse_expression("3+4+5"),
        Err(ParseError::InvalidRightOperand { token: "4+5".to_string() })
    );
    assert_eq!(
        parse_expression("3*1.2.3"),
        Err(ParseError::InvalidRightOperand { token: "1.2.3".to_string() })
    );
}

#[test]
fn right_operand_takes_any_float_literal() {
    assert_eq!(parsed("2*1e3"), expr("2", Operator::Multiply, "1e3"));
    assert_eq!(parsed("2+-3"), expr("2", Operator::Add, "-3"));
    assert_eq!(parsed("2 - inf"), expr("2", Operator::Subtract, "inf"));
    assert_eq!(parsed("5.+.5"), expr("5.", Operator::Add, ".5"));
    assert_eq!(parsed("1/NaN"), expr("1", Operator::Divide, "NaN"));
}

#[test]
fn checking_an_expression_twice_agrees() {
    let e = parse_expression("10/0").unwrap();
    assert_eq!(e.check_evaluable(true), e.check_evaluable(true));
    let e = parse_expression("3+4").unwrap();
    assert_eq!(e.check_evaluable(false), e.check_evaluable(false));
    assert_eq!(value(e.left()) + value(e.right()), value(e.left()) + value(e.right()));
}
