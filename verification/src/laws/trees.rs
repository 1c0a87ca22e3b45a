use super::alike::{lemma_alike_expr, lemma_same_at, same_kinds};
use super::sound::lemma_expr;
use super::texts::lemma_expr_spelled;
use super::support::{consumed, cover, kinds};
use crate::ast::model::ExprV;
use crate::ast::shape::shape_of;
use crate::ast::spans::nested;
use crate::ast::spelling::{same_text, spelled};
use crate::ast::text::expr_text;
use crate::ast::tokens::tokens_of;
use crate::parser::error::{ErrorKind, KError};
use crate::parser::grammar;
use crate::parser::grammar::Tokens;
use crate::parser::input::ordered;
use crate::types::Node;
use vstd::prelude::*;

verus! {

/// In an input as a lexer gives it, the span of every node of a parsed
/// tree contains the spans of the nodes directly below it, and the tree
/// as a whole spans the input from its first token to its last.
pub proof fn law_parsed_spans_nested(ts: Tokens)
    requires
        ordered(ts),
        grammar::parse(ts) is Ok,
    ensures
        nested(grammar::parse(ts).unwrap()),
        grammar::parse(ts).unwrap().span == cover(ts, 0, ts.len()),
{
    lemma_expr(ts, 0);
}

/// The same of an expression read anywhere in an input: it spans the
/// tokens that were consumed, and is nested.
pub proof fn law_read_spans_nested(ts: Tokens, pos: nat)
    requires
        ordered(ts),
    ensures
        grammar::expr(ts, pos) matches Ok((k, n)) ==> pos < k <= ts.len() && nested(n) && n.span
            == cover(ts, pos, k),
{
    lemma_expr(ts, pos);
}

/// A parsed tree is written with exactly the tokens of the input: nothing
/// that was consumed is lost.
pub proof fn law_parsed_tokens(ts: Tokens)
    requires
        grammar::parse(ts) is Ok,
    ensures
        tokens_of(grammar::parse(ts).unwrap()) == kinds(ts),
{
    lemma_expr(ts, 0);
    assert(consumed(ts, 0, ts.len()) =~= kinds(ts));
}

/// Parsing does not depend on spans: two inputs with the same tokens
/// parse to trees of the same shape, or both fail.
pub proof fn law_spans_do_not_matter(a: Tokens, b: Tokens)
    requires
        same_kinds(a, b),
    ensures
        match (grammar::parse(a), grammar::parse(b)) {
            (Ok(x), Ok(y)) => shape_of(x) == shape_of(y),
            (Err(e1), Err(e2)) => *e1.data == *e2.data,
            _ => false,
        },
{
    lemma_alike_expr(a, b, 0);
    lemma_same_at(a, b, 0);
}

/// Round trip: the tokens that a parsed tree is written with, under any
/// spans whatever, parse again to a tree that is equal but for its spans.
pub proof fn law_round_trip(ts: Tokens, again: Tokens)
    requires
        grammar::parse(ts) is Ok,
        kinds(again) == tokens_of(grammar::parse(ts).unwrap()),
    ensures
        grammar::parse(again) is Ok,
        shape_of(grammar::parse(again).unwrap()) == shape_of(grammar::parse(ts).unwrap()),
{
    law_parsed_tokens(ts);
    law_spans_do_not_matter(ts, again);
}

/// The canonical text of every tree is its tokens spelled out in order:
/// the two differ in layout only, which is the blanks and the commas.
pub proof fn law_text_spells_tokens(n: Node<ExprV>)
    ensures
        same_text(expr_text(*n.data), spelled(tokens_of(n))),
{
    lemma_expr_spelled(*n.data);
}

/// The canonical text of a parsed tree is the input spelled out again, but
/// for layout.
pub proof fn law_parsed_text_spells_input(ts: Tokens)
    requires
        grammar::parse(ts) is Ok,
    ensures
        same_text(expr_text(*grammar::parse(ts).unwrap().data), spelled(kinds(ts))),
{
    law_parsed_tokens(ts);
    law_text_spells_tokens(grammar::parse(ts).unwrap());
}

/// Round trip by way of the canonical text: tokens that spell the text of
/// a parsed tree token for token, as the tree is written, parse again to a
/// tree that is equal but for its spans. What is left to the lexer is to
/// read those tokens from the text.
pub proof fn law_round_trip_by_text(ts: Tokens, again: Tokens)
    requires
        grammar::parse(ts) is Ok,
        kinds(again) == tokens_of(grammar::parse(ts).unwrap()),
    ensures
        same_text(expr_text(*grammar::parse(ts).unwrap().data), spelled(kinds(again))),
        grammar::parse(again) is Ok,
        shape_of(grammar::parse(again).unwrap()) == shape_of(grammar::parse(ts).unwrap()),
{
    law_round_trip(ts, again);
    law_text_spells_tokens(grammar::parse(ts).unwrap());
}

/// Whatever the input, an error of the grammar is an error of kind
/// `Grammar`: the runtime kind, which stands for a broken invariant, is out
/// of reach of every input.
pub proof fn law_no_runtime_error(ts: Tokens, pos: nat)
    ensures
        grammar::expr(ts, pos) matches Err(e) ==> e.kind() == ErrorKind::Grammar,
        grammar::parse(ts) matches Err(e) ==> *e.data == ErrorKind::Grammar,
{
    lemma_expr(ts, pos);
    lemma_expr(ts, 0);
}

/// A failure aborts the parse and keeps its pinned span; a recoverable
/// error that escapes is reported at the first token; tokens left over
/// behind the expression are an error at the first of them.
pub proof fn law_parse_errors(ts: Tokens)
    ensures
        grammar::expr(ts, 0) matches Err(KError::Failure(e)) ==> grammar::parse(ts) == Err::<
            Node<ExprV>,
            _,
        >(e),
        grammar::expr(ts, 0) matches Err(KError::Error(_)) ==> grammar::parse(ts) == Err::<
            Node<ExprV>,
            _,
        >(grammar::grammar_error(grammar::head_span(ts, 0))),
        grammar::expr(ts, 0) matches Ok((p, _)) ==> (grammar::parse(ts) is Ok <==> p == ts.len()),
        grammar::expr(ts, 0) matches Ok((p, _)) ==> p < ts.len() ==> grammar::parse(ts) == Err::<
            Node<ExprV>,
            _,
        >(grammar::grammar_error(Some(ts[p as int].span))),
{
    lemma_expr(ts, 0);
}

} // verus!
