//! Splitting a line of text into a left operand, an operator and a right
//! operand, and deciding whether the result can be evaluated.
use vstd::prelude::*;
use vstd::string::StrSliceExecFns;
use vstd::slice::slice_subrange;
use crate::literal::{float_literal_ok, is_float_literal, numeric_run_end, run_end};
use crate::operator::{operator_of, parse_operator, Operator, ParseError};

verus! {

/// A validated expression: two float literals around an operator.
#[derive(Debug, PartialEq, Eq)]
pub struct Expression {
    left: String,
    operator: Operator,
    right: String,
}

/// The mathematical value of an expression.
pub struct ExpressionView {
    pub left: Seq<char>,
    pub operator: Operator,
    pub right: Seq<char>,
}

impl View for Expression {
    type V = ExpressionView;

    closed spec fn view(&self) -> ExpressionView {
        ExpressionView { left: self.left@, operator: self.operator, right: self.right@ }
    }
}

/// An evaluation failure.
#[derive(Clone, Copy, Debug, PartialEq, Eq, Structural)]
pub enum EvalError {
    /// The operator is division and the right operand is zero.
    DivideByZero,
}

/// Unicode's White_Space property.
pub open spec fn is_white_space(c: char) -> bool {
    ('\u{9}' <= c && c <= '\u{d}') || c == ' ' || c == '\u{85}' || c == '\u{a0}' || c
        == '\u{1680}' || ('\u{2000}' <= c && c <= '\u{200a}') || c == '\u{2028}' || c
        == '\u{2029}' || c == '\u{202f}' || c == '\u{205f}' || c == '\u{3000}'
}

/// Relies on `char::is_whitespace`: true exactly for the characters with
/// Unicode's White_Space property.
#[verifier::external_body]
fn is_space(c: char) -> (r: bool)
    ensures
        r == is_white_space(c),
{
    c.is_whitespace()
}

/// Relies on `String`'s `FromIterator<&char>`: the string holds the
/// characters in order.
#[verifier::external_body]
fn text_of(cs: &[char]) -> (r: String)
    ensures
        r@ == cs@,
{
    cs.iter().collect()
}

/// `s` with every whitespace character removed.
pub open spec fn strip_whitespace(s: Seq<char>) -> Seq<char>
    decreases s.len(),
{
    if s.len() == 0 {
        Seq::empty()
    } else {
        let p = strip_whitespace(s.drop_last());
        if is_white_space(s.last()) {
            p
        } else {
            p.push(s.last())
        }
    }
}

/// What a line of text parses to.
pub enum ParseOutcome {
    Parsed(Seq<char>, Operator, Seq<char>),
    BadLeft(Seq<char>),
    NoOperator,
    BadOperator(char),
    BadRight(Seq<char>),
}

/// The outcome of parsing `raw`: with whitespace removed, the left operand is
/// the leading run of digits and points, the operator is the character after
/// it, and the right operand is everything after the operator.
pub open spec fn parse_text(raw: Seq<char>) -> ParseOutcome {
    let s = strip_whitespace(raw);
    let k = numeric_run_end(s, 0);
    let left = s.subrange(0, k);
    let right = s.subrange(k + 1, s.len() as int);
    if !is_float_literal(left) {
        ParseOutcome::BadLeft(left)
    } else if k == s.len() {
        ParseOutcome::NoOperator
    } else if operator_of(s[k]) is None {
        ParseOutcome::BadOperator(s[k])
    } else if !is_float_literal(right) {
        ParseOutcome::BadRight(right)
    } else {
        ParseOutcome::Parsed(left, operator_of(s[k])->Some_0, right)
    }
}

/// The outcome that a result of `parse_expression` stands for.
pub open spec fn outcome_of(r: Result<Expression, ParseError>) -> ParseOutcome {
    match r {
        Ok(e) => ParseOutcome::Parsed(e@.left, e@.operator, e@.right),
        Err(ParseError::InvalidLeftOperand { token }) => ParseOutcome::BadLeft(token@),
        Err(ParseError::MissingOperator) => ParseOutcome::NoOperator,
        Err(ParseError::InvalidOperator { symbol }) => ParseOutcome::BadOperator(symbol),
        Err(ParseError::InvalidRightOperand { token }) => ParseOutcome::BadRight(token@),
    }
}

/// The characters of `raw` that are not whitespace, in order.
pub fn remove_whitespace(raw: &str) -> (r: Vec<char>)
    ensures
        r@ == strip_whitespace(raw@),
{
    let n = raw.unicode_len();
    let mut out: Vec<char> = Vec::new();
    let mut i: usize = 0;
    while i < n
        invariant
            n == raw@.len(),
            i <= n,
            out@ == strip_whitespace(raw@.subrange(0, i as int)),
        decreases n - i,
    {
        let c = raw.get_char(i);
        assert(raw@.subrange(0, i + 1).drop_last() =~= raw@.subrange(0, i as int));
        if !is_space(c) {
            out.push(c);
        }
        i = i + 1;
    }
    assert(raw@.subrange(0, n as int) =~= raw@);
    out
}

/// Parses a line of text as `left operator right`.
pub fn parse_expression(raw: &str) -> (r: Result<Expression, ParseError>)
    ensures
        outcome_of(r) == parse_text(raw@),
{
    let s = remove_whitespace(raw);
    let k = run_end(s.as_slice(), 0);
    let left = slice_subrange(s.as_slice(), 0, k);
    if !float_literal_ok(left) {
        return Err(ParseError::InvalidLeftOperand { token: text_of(left) });
    }
    if k == s.len() {
        return Err(ParseError::MissingOperator);
    }
    let operator = match parse_operator(s[k]) {
        Ok(op) => op,
        Err(e) => {
            return Err(e);
        },
    };
    let right = slice_subrange(s.as_slice(), k + 1, s.len());
    if !float_literal_ok(right) {
        return Err(ParseError::InvalidRightOperand { token: text_of(right) });
    }
    Ok(Expression { left: text_of(left), operator, right: text_of(right) })
}

impl Expression {
    /// Both operands are float literals.
    #[verifier::type_invariant]
    spec fn well_formed(self) -> bool {
        is_float_literal(self.left@) && is_float_literal(self.right@)
    }

    /// The text of the left operand, a float literal.
    pub fn left(&self) -> (r: &str)
        ensures
            r@ == self@.left,
            is_float_literal(r@),
    {
        proof {
            use_type_invariant(self);
        }
        self.left.as_str()
    }

    /// The operator.
    pub fn operator(&self) -> (r: Operator)
        ensures
            r == self@.operator,
    {
        self.operator
    }

    /// The text of the right operand, a float literal.
    pub fn right(&self) -> (r: &str)
        ensures
            r@ == self@.right,
            is_float_literal(r@),
    {
        proof {
            use_type_invariant(self);
        }
        self.right.as_str()
    }

    /// Decides whether the expression can be evaluated, given whether its
    /// right operand reads as exactly zero: only a division by zero fails.
    pub fn check_evaluable(&self, right_is_zero: bool) -> (r: Result<(), EvalError>)
        ensures
            r is Err <==> (self@.operator == Operator::Divide && right_is_zero),
            r is Err ==> r == Err::<(), EvalError>(EvalError::DivideByZero),
    {
        match self.operator {
            Operator::Divide if right_is_zero => Err(EvalError::DivideByZero),
            _ => Ok(()),
        }
    }
}

/// Removing whitespace a second time changes nothing.
pub proof fn lemma_strip_idempotent(s: Seq<char>)
    ensures
        strip_whitespace(strip_whitespace(s)) == strip_whitespace(s),
    decreases s.len(),
{
    if s.len() > 0 {
        lemma_strip_idempotent(s.drop_last());
        let p = strip_whitespace(s.drop_last());
        if !is_white_space(s.last()) {
            assert(p.push(s.last()).drop_last() =~= p);
        }
    }
}

/// Parsing ignores whitespace: two lines that differ only in whitespace
/// parse alike, and a line parses as it does with its whitespace removed.
pub proof fn lemma_whitespace_insensitive(a: Seq<char>, b: Seq<char>)
    requires
        strip_whitespace(a) == strip_whitespace(b),
    ensures
        parse_text(a) == parse_text(b),
        parse_text(a) == parse_text(strip_whitespace(a)),
{
    lemma_strip_idempotent(a);
}

} // verus!
