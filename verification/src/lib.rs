//! The front end of a small expression language for dice: a verified
//! recursive-descent parser from lexed tokens to an abstract syntax tree
//! whose every node knows its span of source text.
//!
//! - [`types`]: spans, nodes, and the canonical text of values.
//! - [`token`]: what the lexer hands over.
//! - [`ast`]: the tree, its mathematical model, its canonical text, and the
//!   rewrite from expressions to the patterns on the left of `:=`.
//! - [`parser`]: the grammar as a mathematical function, and the parsers
//!   that compute it.
//! - [`laws`]: what holds of every parse.

pub mod ast;
pub mod laws;
pub mod parser;
pub mod token;
pub mod types;
