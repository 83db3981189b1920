//! The operators of FEEL (Friendly Enough Expression Language) expressions.
use vstd::prelude::*;

verus! {

/// Unary operators.
#[derive(Debug, Clone, Copy, PartialEq, Eq, Structural)]
pub enum UnaryOp {
    /// Logical not.
    Not,
    /// Arithmetic negation.
    Negate,
}

/// Binary operators.
#[derive(Debug, Clone, Copy, PartialEq, Eq, Structural)]
pub enum BinaryOp {
    Add,
    Subtract,
    Multiply,
    Divide,
    /// Exponentiation.
    Power,
    /// Logical and.
    And,
    /// Logical or.
    Or,
}

/// Comparison operators.
#[derive(Debug, Clone, Copy, PartialEq, Eq, Structural)]
pub enum ComparisonOp {
    Equals,
    NotEquals,
    LessThan,
    LessEqual,
    GreaterThan,
    GreaterEqual,
}

} // verus!
