use crate::types::{ONode, Span};
use vstd::prelude::*;

verus! {

/// What went wrong.
#[derive(Clone, Copy, Debug, PartialEq, Eq, Structural)]
pub enum ErrorKind {
    /// The input does not match the grammar.
    Grammar,
    /// An internal invariant did not hold.
    Runtime,
}

/// The two ways in which a parser gives up.
#[derive(Clone, Debug, PartialEq)]
pub enum KError {
    /// This alternative does not match here; another one may.
    Error(ONode<ErrorKind>),
    /// The parse is committed and cannot complete; no alternative is tried.
    Failure(ONode<ErrorKind>),
}

impl KError {
    /// A recoverable error, in the model.
    pub open spec fn spec_error(span: Option<Span>, kind: ErrorKind) -> KError {
        KError::Error(ONode { span, data: Box::new(kind) })
    }

    /// An unrecoverable error, in the model.
    pub open spec fn spec_failure(span: Option<Span>, kind: ErrorKind) -> KError {
        KError::Failure(ONode { span, data: Box::new(kind) })
    }

    /// A recoverable error of the given kind.
    pub fn error(span: Option<Span>, kind: ErrorKind) -> (e: KError)
        ensures
            e == KError::spec_error(span, kind),
    {
        KError::Error(ONode::new(span, kind))
    }

    /// An unrecoverable error of the given kind.
    pub fn failure(span: Option<Span>, kind: ErrorKind) -> (e: KError)
        ensures
            e == KError::spec_failure(span, kind),
    {
        KError::Failure(ONode::new(span, kind))
    }

    /// What went wrong.
    pub open spec fn kind(self) -> ErrorKind {
        match self {
            KError::Error(n) => *n.data,
            KError::Failure(n) => *n.data,
        }
    }

    /// Where it went wrong, if that is known.
    pub open spec fn span(self) -> Option<Span> {
        match self {
            KError::Error(n) => n.span,
            KError::Failure(n) => n.span,
        }
    }
}

} // verus!
