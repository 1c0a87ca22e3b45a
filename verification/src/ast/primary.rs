use super::atom::{Atom, ListItem};
use super::expr::Expr;
use crate::types::Node;
use vstd::prelude::*;

verus! {

/// A postfix chain over an atom; each suffix wraps what stands to its left.
#[derive(Debug, PartialEq)]
pub enum Primary {
    Attribute(Node<Primary>, Node<String>),
    Subscription(Node<Primary>, Vec<Node<Expr>>),
    Call(Node<Primary>, Node<Args>),
    Atom(Atom),
}

/// The arguments of a call.
#[derive(Debug, PartialEq)]
pub struct Args(pub Vec<Node<ListItem>>);

} // verus!
