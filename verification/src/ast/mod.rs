//! The expression tree.

pub mod binary_ope;
pub mod expr;
pub mod unary_ope;
