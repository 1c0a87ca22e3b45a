//! The grammar: `grammar` says as a mathematical function what every
//! production reads at a position of an input, and the parsers of `expr`
//! and `primary` compute exactly that over a cursor.

pub mod error;
pub mod expr;
pub mod grammar;
pub mod input;
pub mod make;
pub mod primary;

pub use error::{ErrorKind, KError};
pub use expr::{
    a_expr, adds, and_test, assignment_expr, c_expr, coefficient, conditional_expr, die, eqs, expr,
    expr_list0, expr_list1, expr_node, for_expr, if_expr, lambda_expr, loop_expr, m_expr,
    match_expr, muls, not_test, or_test, p_expr, parse, pow, r_expr, ranges, u_expr, while_expr,
};
pub use input::{is_ordered, token_action, token_if, token_tag, Input, KResult};
pub use primary::{atom, numeric_literal, primary};
