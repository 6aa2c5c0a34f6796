use vstd::prelude::*;

verus! {

/// The five supported arithmetic operations.
#[derive(Clone, Copy, Debug, PartialEq, Eq, Structural)]
pub enum Operator {
    Add,
    Subtract,
    Multiply,
    Divide,
    Power,
}

/// The operator that a symbol stands for, if any.
pub open spec fn operator_of(c: char) -> Option<Operator> {
    if c == '+' {
        Some(Operator::Add)
    } else if c == '-' {
        Some(Operator::Subtract)
    } else if c == '*' {
        Some(Operator::Multiply)
    } else if c == '/' {
        Some(Operator::Divide)
    } else if c == '^' {
        Some(Operator::Power)
    } else {
        None
    }
}

/// The symbol that displays an operator.
pub open spec fn symbol(op: Operator) -> char {
    match op {
        Operator::Add => '+',
        Operator::Subtract => '-',
        Operator::Multiply => '*',
        Operator::Divide => '/',
        Operator::Power => '^',
    }
}

/// A parse failure: one of the ways a line of text fails to be an expression.
#[derive(Clone, Debug, PartialEq, Eq)]
pub enum ParseError {
    /// The left operand is absent or is not a float literal.
    InvalidLeftOperand { token: String },
    /// Nothing follows the left operand.
    MissingOperator,
    /// The character after the left operand is not a supported symbol.
    InvalidOperator { symbol: char },
    /// The right operand is absent or is not a float literal.
    InvalidRightOperand { token: String },
}

/// Resolves a symbol to its operator; any other character is rejected.
pub fn parse_operator(c: char) -> (r: Result<Operator, ParseError>)
    ensures
        match operator_of(c) {
            Some(op) => r == Ok::<Operator, ParseError>(op),
            None => r == Err::<Operator, ParseError>(ParseError::InvalidOperator { symbol: c }),
        },
{
    if c == '+' {
        Ok(Operator::Add)
    } else if c == '-' {
        Ok(Operator::Subtract)
    } else if c == '*' {
        Ok(Operator::Multiply)
    } else if c == '/' {
        Ok(Operator::Divide)
    } else if c == '^' {
        Ok(Operator::Power)
    } else {
        Err(ParseError::InvalidOperator { symbol: c })
    }
}

/// The display symbol of an operator.
pub fn symbol_of(op: Operator) -> (r: char)
    ensures
        r == symbol(op),
{
    match op {
        Operator::Add => '+',
        Operator::Subtract => '-',
        Operator::Multiply => '*',
        Operator::Divide => '/',
        Operator::Power => '^',
    }
}

/// Every supported symbol resolves to an operator whose symbol it is, and
/// every operator's symbol resolves back to that operator.
pub proof fn lemma_operator_round_trip(c: char, op: Operator)
    requires
        c == '+' || c == '-' || c == '*' || c == '/' || c == '^',
    ensures
        operator_of(c) is Some,
        symbol(operator_of(c)->Some_0) == c,
        operator_of(symbol(op)) == Some(op),
{
}

/// Exactly the five supported symbols resolve to an operator.
pub proof fn lemma_only_symbols_resolve(c: char)
    ensures
        operator_of(c) is Some <==> (c == '+' || c == '-' || c == '*' || c == '/' || c == '^'),
{
}

} // verus!
