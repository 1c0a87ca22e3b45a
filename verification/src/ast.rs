//! The syntax tree: its types, their mathematical models, and what is
//! computed from a tree: its canonical text, its tokens, its shape without
//! spans, and the pattern that an expression stands for.

pub mod atom;
pub mod copy;
pub mod expr;
pub mod model;
pub mod op;
pub mod primary;
pub mod render;
pub mod rewrite;
pub mod shape;
pub mod spans;
pub mod spelling;
pub mod tokens;
pub mod target;
pub mod text;

pub use atom::{Atom, DictItem, ListItem};
pub use expr::{ArgsDef, Branch, Expr, ExprBlock, ExprBlockEnclosed, ExprBlockTop, Range};
pub use model::{
    AtomV, BlockV, BranchV, DictItemV, ExprV, ListItemV, PrimaryV, RangeV, TargetDictItemV,
    TargetListItemV, TargetListV, TargetV,
};
pub use op::{OpArith, OpEqs, OpRange};
pub use primary::{Args, Primary};
pub use render::{
    render, render_atom, render_expr, render_integer, render_primary, render_target, spelling,
};
pub use target::{Target, TargetDictItem, TargetList, TargetListItem};
