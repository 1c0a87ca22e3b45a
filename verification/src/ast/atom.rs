use super::expr::Expr;
use crate::types::Node;
use vstd::prelude::*;

verus! {

/// A terminal form of an expression.
#[derive(Debug, PartialEq)]
pub enum Atom {
    Id(String),
    Integer(i32),
    String(String),
    Boolean(bool),
    Null,
    /// One item in parentheses.
    Paren(Node<ListItem>),
    Tuple(Vec<Node<ListItem>>),
    ListDisplay(Vec<Node<ListItem>>),
    DictDisplay(Vec<Node<DictItem>>),
}

/// An item of a tuple or a list display.
#[derive(Debug, PartialEq)]
pub enum ListItem {
    Expr(Expr),
    Spread(Node<Expr>),
}

/// An item of a dict display.
#[derive(Debug, PartialEq)]
pub enum DictItem {
    Shorthand(String),
    Spread(Node<Expr>),
    KeyVal { key: Node<String>, val: Node<Expr> },
}

} // verus!
