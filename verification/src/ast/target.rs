use crate::types::Node;
use vstd::prelude::*;

verus! {

/// A destructuring pattern: what may stand on the left of `:=`.
#[derive(Debug, PartialEq)]
pub enum Target {
    Id(String),
    TargetTuple(Vec<Node<TargetListItem>>),
    TargetList(Vec<Node<TargetListItem>>),
    TargetDict(Vec<Node<TargetDictItem>>),
}

/// An item of a tuple or list pattern.
#[derive(Debug, PartialEq)]
pub enum TargetListItem {
    Target(Target),
    Spread(Node<Target>),
}

/// An item of a dict pattern.
#[derive(Debug, PartialEq)]
pub enum TargetDictItem {
    Shorthand(String),
    Spread(Node<Target>),
    Pair { key: Node<String>, val: Node<Target> },
}

/// One pattern, or several written without brackets.
#[derive(Debug, PartialEq)]
pub enum TargetList {
    Target(Target),
    List(Vec<Node<Target>>),
}

} // verus!
