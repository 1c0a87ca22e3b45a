use super::atom::Atom;
use super::op::{OpArith, OpEqs};
use super::primary::Primary;
use super::target::Target;
use crate::types::Node;
use vstd::prelude::*;

verus! {

/// An expression.
#[derive(Debug, PartialEq)]
pub enum Expr {
    Assign(Node<Target>, Node<Expr>),
    Branch(Branch),
    Function { args: Node<ArgsDef>, block: Node<ExprBlockEnclosed> },
    And(Node<Expr>, Node<Expr>),
    Or(Node<Expr>, Node<Expr>),
    Not(Node<Expr>),
    CompareBound {
        l_val: Node<Expr>,
        l_op: Node<OpEqs>,
        val: Node<Expr>,
        r_op: Node<OpEqs>,
        r_val: Node<Expr>,
    },
    Compare(Node<Expr>, Node<OpEqs>, Node<Expr>),
    Range(Range),
    Arith(Node<Expr>, Node<OpArith>, Node<Expr>),
    Unary(Node<OpArith>, Node<Expr>),
    Coefficient(Node<Atom>, Node<Expr>),
    Die(Node<Atom>),
    Primary(Primary),
}

/// The six shapes of a range expression.
#[derive(Debug, PartialEq)]
pub enum Range {
    Range { start: Node<Expr>, end: Node<Expr> },
    RangeI { start: Node<Expr>, end: Node<Expr> },
    RangeFrom { start: Node<Expr> },
    RangeTo { end: Node<Expr> },
    RangeToI { end: Node<Expr> },
    RangeFull,
}

/// A control-flow form.
#[derive(Debug, PartialEq)]
pub enum Branch {
    If { val: Node<Expr>, block: Node<ExprBlockEnclosed>, else_block: Option<Node<ExprBlockEnclosed>> },
    Match { val: Node<Expr>, block: Node<ExprBlockEnclosed> },
    For { target: Node<Target>, val: Node<Expr>, block: Node<ExprBlockEnclosed> },
    While { val: Node<Expr>, block: Node<ExprBlockEnclosed> },
    Loop { block: Node<ExprBlockEnclosed> },
}

/// The parameters of a function.
#[derive(Debug, PartialEq)]
pub struct ArgsDef(pub Vec<Node<Target>>);

/// A block that shows its braces only when it holds several expressions.
#[derive(Debug, PartialEq)]
pub struct ExprBlock(pub Vec<Node<Expr>>);

/// The block at the top of a program: never in braces.
#[derive(Debug, PartialEq)]
pub struct ExprBlockTop(pub Vec<Node<Expr>>);

/// A block that is always in braces.
#[derive(Debug, PartialEq)]
pub struct ExprBlockEnclosed(pub Vec<Node<Expr>>);

} // verus!
