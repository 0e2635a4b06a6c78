//! Unary operators.

use vstd::prelude::*;

verus! {

/// An operator before its operand.
#[derive(Clone, Copy, Debug, PartialEq, Eq, Structural)]
pub enum UnaryOperator {
    Plus,
    Minus,
}

impl UnaryOperator {
    /// The operator as it is written in source text.
    pub open spec fn symbol(self) -> Seq<char> {
        match self {
            UnaryOperator::Plus => "+"@,
            UnaryOperator::Minus => "-"@,
        }
    }

    /// The operator as it is written in source text.
    #[must_use]
    pub fn to_string(&self) -> (text: String)
        ensures
            text@ == self.symbol(),
    {
        match self {
            UnaryOperator::Plus => "+".to_owned(),
            UnaryOperator::Minus => "-".to_owned(),
        }
    }
}

} // verus!
