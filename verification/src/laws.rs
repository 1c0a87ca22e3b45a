//! What holds of every parse. The laws themselves stand in `trees`,
//! `forms` and `hulls`; `sound` and `alike` carry them through the grammar,
//! production by production, and `texts` carries the canonical text
//! through the tree.

pub mod alike;
pub mod forms;
pub mod hulls;
pub mod sound;
pub mod support;
pub mod targets;
pub mod texts;
pub mod trees;
