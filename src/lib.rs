//! A single-operation calculator core: resolving operator symbols, splitting a
//! line of text into two numeric literals around an operator, and deciding
//! whether the resulting expression can be evaluated.

pub mod expression;
pub mod literal;
pub mod operator;
