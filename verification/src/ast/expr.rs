//! Expression nodes. Every node owns its children and carries the span of
//! the source text it was parsed from.

use crate::ast::binary_ope::BinaryOperator;
use crate::ast::unary_ope::UnaryOperator;
use crate::compiler_data::position::Position;
use crate::compiler_data::value::{Literal, Value};
use vstd::prelude::*;

verus! {

/// A node of the expression tree.
#[derive(Debug, PartialEq, Eq)]
pub struct Expr {
    pub pos: Position,
    pub expr_type: ExprType,
}

/// The kind of a node.
#[derive(Debug, PartialEq, Eq)]
pub enum ExprType {
    Literal(ExprLiteral),
    Unary(ExprUnary),
    Binary(ExprBinary),
}

/// A literal.
#[derive(Debug, PartialEq, Eq)]
pub struct ExprLiteral {
    pub value: Value,
}

/// An operator applied to one operand.
#[derive(Debug, PartialEq, Eq)]
pub struct ExprUnary {
    pub ope: UnaryOperator,
    pub rhs: Box<Expr>,
}

/// An operator applied to two operands.
#[derive(Debug, PartialEq, Eq)]
pub struct ExprBinary {
    pub ope: BinaryOperator,
    pub lhs: Box<Expr>,
    pub rhs: Box<Expr>,
}

/// What an expression is in contracts.
#[allow(inconsistent_fields)]
pub enum Tree {
    Literal { pos: Position, value: Literal },
    Unary { pos: Position, ope: UnaryOperator, rhs: Box<Tree> },
    Binary { pos: Position, ope: BinaryOperator, lhs: Box<Tree>, rhs: Box<Tree> },
}

impl Tree {
    /// The span of the root.
    pub open spec fn pos(self) -> Position {
        match self {
            Tree::Literal { pos, .. } => pos,
            Tree::Unary { pos, .. } => pos,
            Tree::Binary { pos, .. } => pos,
        }
    }

    /// The same tree with `pos` as the span of its root.
    pub open spec fn at(self, pos: Position) -> Tree {
        match self {
            Tree::Literal { value, .. } => Tree::Literal { pos, value },
            Tree::Unary { ope, rhs, .. } => Tree::Unary { pos, ope, rhs },
            Tree::Binary { ope, lhs, rhs, .. } => Tree::Binary { pos, ope, lhs, rhs },
        }
    }
}

/// The tree that `expr` stands for.
pub open spec fn tree_of(expr: Expr) -> Tree
    decreases expr,
{
    match expr.expr_type {
        ExprType::Literal(literal) => Tree::Literal { pos: expr.pos, value: literal.value@ },
        ExprType::Unary(unary) => Tree::Unary {
            pos: expr.pos,
            ope: unary.ope,
            rhs: Box::new(tree_of(*unary.rhs)),
        },
        ExprType::Binary(binary) => Tree::Binary {
            pos: expr.pos,
            ope: binary.ope,
            lhs: Box::new(tree_of(*binary.lhs)),
            rhs: Box::new(tree_of(*binary.rhs)),
        },
    }
}

impl View for Expr {
    type V = Tree;

    open spec fn view(&self) -> Tree {
        tree_of(*self)
    }
}

} // verus!
