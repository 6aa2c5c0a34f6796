//! The grammar of a float literal, as `f64`'s `FromStr` documents it:
//!
//! ```text
//! Float  ::= Sign? ( 'inf' | 'infinity' | 'nan' | Number )
//! Number ::= ( Digit+ | Digit+ '.' Digit* | Digit* '.' Digit+ ) Exp?
//! Exp    ::= 'e' Sign? Digit+
//! Sign   ::= [+-]
//! Digit  ::= [0-9]
//! ```
//!
//! Letters match regardless of case. Every text of this shape reads as a
//! number (a large exponent reads as infinity); every other text is refused.
use vstd::prelude::*;

verus! {

pub open spec fn is_digit(c: char) -> bool {
    '0' <= c && c <= '9'
}

/// A character that may stand in the mantissa of a literal.
pub open spec fn is_numeric_char(c: char) -> bool {
    is_digit(c) || c == '.'
}

pub open spec fn is_sign(c: char) -> bool {
    c == '+' || c == '-'
}

/// The first position at or after `i` whose character is neither a digit nor
/// `.`; the length of `s` if there is none.
pub open spec fn numeric_run_end(s: Seq<char>, i: int) -> int
    decreases s.len() - i,
{
    if i >= s.len() {
        s.len() as int
    } else if !is_numeric_char(s[i]) {
        i
    } else {
        numeric_run_end(s, i + 1)
    }
}

/// `Digit+ | Digit+ '.' Digit* | Digit* '.' Digit+`: digits and at most one
/// point, with at least one digit.
pub open spec fn is_mantissa(t: Seq<char>) -> bool {
    &&& forall|i: int| 0 <= i < t.len() ==> is_numeric_char(#[trigger] t[i])
    &&& forall|i: int, j: int| 0 <= i < j < t.len() && #[trigger] t[i] == '.' ==> #[trigger] t[j] != '.'
    &&& exists|i: int| 0 <= i < t.len() && is_digit(#[trigger] t[i])
}

/// `Exp ::= 'e' Sign? Digit+`.
pub open spec fn is_exponent(t: Seq<char>) -> bool {
    let start: int = if t.len() >= 2 && is_sign(t[1]) { 2 } else { 1 };
    &&& t.len() > start
    &&& (t[0] == 'e' || t[0] == 'E')
    &&& forall|i: int| start <= i < t.len() ==> is_digit(#[trigger] t[i])
}

/// `Number`: a mantissa, then an optional exponent.
pub open spec fn is_number(t: Seq<char>) -> bool {
    let m = numeric_run_end(t, 0);
    is_mantissa(t.subrange(0, m)) && (m == t.len() || is_exponent(t.subrange(m, t.len() as int)))
}

/// `c` is the lower-case ASCII letter `w`, in either case.
pub open spec fn same_letter(c: char, w: char) -> bool {
    c == w || (c as u32) + 32 == (w as u32)
}

/// `t` spells the lower-case word `w`, regardless of case.
pub open spec fn spells(t: Seq<char>, w: Seq<char>) -> bool {
    t.len() == w.len() && forall|i: int| 0 <= i < t.len() ==> same_letter(#[trigger] t[i], w[i])
}

pub open spec fn is_special_word(t: Seq<char>) -> bool {
    spells(t, seq!['i', 'n', 'f']) || spells(t, seq!['i', 'n', 'f', 'i', 'n', 'i', 't', 'y'])
        || spells(t, seq!['n', 'a', 'n'])
}

/// The literal without its leading sign, if it has one.
pub open spec fn unsigned_part(t: Seq<char>) -> Seq<char> {
    if t.len() > 0 && is_sign(t[0]) {
        t.subrange(1, t.len() as int)
    } else {
        t
    }
}

/// `t` is a float literal.
pub open spec fn is_float_literal(t: Seq<char>) -> bool {
    is_special_word(unsigned_part(t)) || is_number(unsigned_part(t))
}

pub fn is_numeric(c: char) -> (r: bool)
    ensures
        r == is_numeric_char(c),
{
    ('0' <= c && c <= '9') || c == '.'
}

/// The first position at or after `from` that ends the run of digits and points.
pub fn run_end(s: &[char], from: usize) -> (r: usize)
    requires
        from <= s@.len(),
    ensures
        from <= r <= s@.len(),
        r as int == numeric_run_end(s@, from as int),
{
    let mut i: usize = from;
    while i < s.len()
        invariant
            from <= i <= s@.len(),
            numeric_run_end(s@, from as int) == numeric_run_end(s@, i as int),
        decreases s@.len() - i,
    {
        if !is_numeric(s[i]) {
            return i;
        }
        i = i + 1;
    }
    i
}

fn mantissa_ok(t: &[char]) -> (r: bool)
    ensures
        r == is_mantissa(t@),
{
    let mut seen_dot = false;
    let mut seen_digit = false;
    let mut i: usize = 0;
    while i < t.len()
        invariant
            0 <= i <= t@.len(),
            forall|j: int| 0 <= j < i ==> is_numeric_char(#[trigger] t@[j]),
            forall|j: int, k: int| 0 <= j < k < i && #[trigger] t@[j] == '.' ==> #[trigger] t@[k] != '.',
            seen_dot <==> exists|j: int| 0 <= j < i && #[trigger] t@[j] == '.',
            seen_digit <==> exists|j: int| 0 <= j < i && is_digit(#[trigger] t@[j]),
        decreases t@.len() - i,
    {
        let c = t[i];
        if c == '.' {
            if seen_dot {
                let ghost j = choose|j: int| 0 <= j < i && #[trigger] t@[j] == '.';
                assert(t@[j] == '.' && t@[i as int] == '.');
                return false;
            }
            seen_dot = true;
        } else if '0' <= c && c <= '9' {
            seen_digit = true;
        } else {
            assert(!is_numeric_char(t@[i as int]));
            return false;
        }
        i = i + 1;
    }
    seen_digit
}

fn exponent_ok(t: &[char]) -> (r: bool)
    ensures
        r == is_exponent(t@),
{
    if t.len() < 2 || !(t[0] == 'e' || t[0] == 'E') {
        return false;
    }
    let start: usize = if t[1] == '+' || t[1] == '-' { 2 } else { 1 };
    if t.len() <= start {
        return false;
    }
    let mut i: usize = start;
    while i < t.len()
        invariant
            start <= i <= t@.len(),
            start == (if t@.len() >= 2 && is_sign(t@[1]) { 2int } else { 1int }),
            forall|j: int| start <= j < i ==> is_digit(#[trigger] t@[j]),
        decreases t@.len() - i,
    {
        if !('0' <= t[i] && t[i] <= '9') {
            return false;
        }
        i = i + 1;
    }
    true
}

fn spells_word(t: &[char], w: &[char]) -> (r: bool)
    requires
        forall|i: int| 0 <= i < w@.len() ==> 'a' <= #[trigger] w@[i] <= 'z',
    ensures
        r == spells(t@, w@),
{
    if t.len() != w.len() {
        return false;
    }
    let mut i: usize = 0;
    while i < t.len()
        invariant
            0 <= i <= t@.len(),
            t@.len() == w@.len(),
            forall|j: int| 0 <= j < w@.len() ==> 'a' <= #[trigger] w@[j] <= 'z',
            forall|j: int| 0 <= j < w@.len() ==> (#[trigger] w@[j] as u32) >= 97,
            forall|j: int| 0 <= j < i ==> same_letter(#[trigger] t@[j], w@[j]),
        decreases t@.len() - i,
    {
        let c = t[i];
        let l = w[i];
        if !(c == l || (c as u32) == (l as u32) - 32) {
            return false;
        }
        i = i + 1;
    }
    true
}

/// Decides whether `t` is a float literal.
pub fn float_literal_ok(t: &[char]) -> (r: bool)
    ensures
        r == is_float_literal(t@),
{
    let b: &[char] = if t.len() > 0 && (t[0] == '+' || t[0] == '-') {
        vstd::slice::slice_subrange(t, 1, t.len())
    } else {
        t
    };
    assert(b@ == unsigned_part(t@));
    let inf = vec!['i', 'n', 'f'];
    let infinity = vec!['i', 'n', 'f', 'i', 'n', 'i', 't', 'y'];
    let nan = vec!['n', 'a', 'n'];
    assert(inf@ == seq!['i', 'n', 'f']);
    assert(infinity@ == seq!['i', 'n', 'f', 'i', 'n', 'i', 't', 'y']);
    assert(nan@ == seq!['n', 'a', 'n']);
    if spells_word(b, inf.as_slice()) || spells_word(b, infinity.as_slice()) || spells_word(
        b,
        nan.as_slice(),
    ) {
        return true;
    }
    let m = run_end(b, 0);
    let mantissa = vstd::slice::slice_subrange(b, 0, m);
    if !mantissa_ok(mantissa) {
        return false;
    }
    if m == b.len() {
        return true;
    }
    exponent_ok(vstd::slice::slice_subrange(b, m, b.len()))
}

} // verus!
