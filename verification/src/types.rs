//! Spans of source text, values under a span, and canonical text.

pub mod node;
pub mod span;

pub use node::{joined, lemma_joined_step, Node, ONode, Render};
pub use span::{SliceSpan, Span};
