use super::support::{
    consumed, cover, lemma_cover_contains, lemma_cover_hull, lemma_cover_one,
    lemma_dict_items_tokens_push, lemma_exprs_tokens_push, lemma_kinds_none, lemma_kinds_one,
    lemma_kinds_split, lemma_list_items_tokens_push, lemma_ordered, read_ok, run_ok,
    within,
};
use super::targets::lemma_target_of_expr;
use crate::ast::model::{node, AtomV, DictItemV, ExprV, ListItemV, PrimaryV};
use crate::ast::op::{OpEqs, OpRange};
use crate::ast::rewrite::target_of_expr;
use crate::ast::spans::{
    atom_nested, child_nested, dict_item_nested, dict_items_nested, expr_nested, exprs_nested,
    list_item_nested, list_items_nested, primary_nested, range_nested,
};
use crate::ast::tokens::{
    arith_token, atom_tokens, dict_item_tokens, dict_items_tokens, eqs_token, expr_tokens,
    exprs_tokens, list_item_tokens, list_items_tokens, primary_tokens, range_tokens,
};
use crate::parser::error::{ErrorKind, KError};
use crate::parser::grammar;
use crate::parser::grammar::{SResult, SuffixV, Tokens};
use crate::parser::input::ordered;
use crate::token::TokenV;
use crate::types::{Node, Span};
use vstd::prelude::*;

verus! {

/// A parser that gives up says that the input does not match the
/// grammar: the runtime error that stands for an unreachable position is
/// never seen.
pub open spec fn grammatical<T>(r: SResult<T>) -> bool {
    r matches Err(e) ==> e.kind() == ErrorKind::Grammar
}

/// An expression that was read is written with the tokens consumed and,
/// in an ordered input, spans what they cover and is nested.
pub open spec fn expr_read(ts: Tokens, pos: nat, r: SResult<Node<ExprV>>) -> bool {
    &&& grammatical(r)
    &&& r matches Ok((k, n)) ==> read_ok(
        ts,
        pos,
        k,
        n.span,
        expr_tokens(*n.data),
        expr_nested(n.span, *n.data),
    )
}

/// The same of a postfix chain.
pub open spec fn primary_read(ts: Tokens, pos: nat, r: SResult<Node<PrimaryV>>) -> bool {
    &&& grammatical(r)
    &&& r matches Ok((k, n)) ==> read_ok(
        ts,
        pos,
        k,
        n.span,
        primary_tokens(*n.data),
        primary_nested(n.span, *n.data),
    )
}

/// The same of an atom.
pub open spec fn atom_read(ts: Tokens, pos: nat, r: SResult<Node<AtomV>>) -> bool {
    &&& grammatical(r)
    &&& r matches Ok((k, n)) ==> read_ok(
        ts,
        pos,
        k,
        n.span,
        atom_tokens(*n.data),
        atom_nested(n.span, *n.data),
    )
}

/// The same of an item.
pub open spec fn list_item_read(ts: Tokens, pos: nat, r: SResult<Node<ListItemV>>) -> bool {
    &&& grammatical(r)
    &&& r matches Ok((k, n)) ==> read_ok(
        ts,
        pos,
        k,
        n.span,
        list_item_tokens(*n.data),
        list_item_nested(n.span, *n.data),
    )
}

/// The same of a dict item.
pub open spec fn dict_item_read(ts: Tokens, pos: nat, r: SResult<Node<DictItemV>>) -> bool {
    &&& grammatical(r)
    &&& r matches Ok((k, n)) ==> read_ok(
        ts,
        pos,
        k,
        n.span,
        dict_item_tokens(*n.data),
        dict_item_nested(n.span, *n.data),
    )
}

/// Every expression of a run lies inside the tokens `from` up to `to`
/// and is nested.
pub open spec fn exprs_each(ts: Tokens, from: nat, to: nat, items: Seq<Node<ExprV>>) -> bool {
    forall|i: int|
        #![trigger items[i]]
        0 <= i < items.len() ==> within(ts, from, to, items[i].span) && expr_nested(
            items[i].span,
            *items[i].data,
        )
}

/// The same of items.
pub open spec fn list_each(ts: Tokens, from: nat, to: nat, items: Seq<Node<ListItemV>>) -> bool {
    forall|i: int|
        #![trigger items[i]]
        0 <= i < items.len() ==> within(ts, from, to, items[i].span) && list_item_nested(
            items[i].span,
            *items[i].data,
        )
}

/// The same of dict items.
pub open spec fn dict_each(ts: Tokens, from: nat, to: nat, items: Seq<Node<DictItemV>>) -> bool {
    forall|i: int|
        #![trigger items[i]]
        0 <= i < items.len() ==> within(ts, from, to, items[i].span) && dict_item_nested(
            items[i].span,
            *items[i].data,
        )
}

/// The same of expressions.
pub open spec fn exprs_run(ts: Tokens, pos: nat, r: SResult<Seq<Node<ExprV>>>) -> bool {
    &&& grammatical(r)
    &&& r matches Ok((k, items)) ==> run_ok(
        ts,
        pos,
        k,
        exprs_tokens(items, items.len()),
        exprs_each(ts, pos, k, items),
    )
}

/// The same of items.
pub open spec fn list_run(ts: Tokens, pos: nat, r: SResult<Seq<Node<ListItemV>>>) -> bool {
    &&& grammatical(r)
    &&& r matches Ok((k, items)) ==> run_ok(
        ts,
        pos,
        k,
        list_items_tokens(items, items.len()),
        list_each(ts, pos, k, items),
    )
}

/// The same of dict items.
pub open spec fn dict_run(ts: Tokens, pos: nat, r: SResult<Seq<Node<DictItemV>>>) -> bool {
    &&& grammatical(r)
    &&& r matches Ok((k, items)) ==> run_ok(
        ts,
        pos,
        k,
        dict_items_tokens(items, items.len()),
        dict_each(ts, pos, k, items),
    )
}

/// The tokens that a suffix is written with.
pub open spec fn suffix_tokens(s: SuffixV) -> Seq<TokenV> {
    match s {
        SuffixV::Attribute(name) => seq![TokenV::DOT, TokenV::Id(*name.data)],
        SuffixV::Subscription(items) => seq![TokenV::LBRACKET] + exprs_tokens(items, items.len())
            + seq![TokenV::RBRACKET],
        SuffixV::Call(args) => seq![TokenV::LPAREN] + list_items_tokens(
            *args.data,
            args.data.len(),
        ) + seq![TokenV::RPAREN],
    }
}

/// The parts of a suffix read from the tokens `pos` up to `k` lie inside
/// them and are nested.
pub open spec fn suffix_nested(ts: Tokens, pos: nat, k: nat, s: SuffixV) -> bool {
    match s {
        SuffixV::Attribute(name) => name.span == ts[k - 1].span,
        SuffixV::Subscription(items) => exprs_each(ts, pos, k, items),
        SuffixV::Call(args) => args.span == cover(ts, pos, k) && list_items_nested(
            args.span,
            *args.data,
        ),
    }
}

/// The same of a suffix.
pub open spec fn suffix_read(ts: Tokens, pos: nat, r: SResult<Node<SuffixV>>) -> bool {
    &&& grammatical(r)
    &&& r matches Ok((k, s)) ==> {
        &&& pos < k <= ts.len()
        &&& suffix_tokens(*s.data) == consumed(ts, pos, k)
        &&& ordered(ts) ==> s.span == ts[k - 1].span && suffix_nested(ts, pos, k, *s.data)
    }
}

/// Two values read left and right of the one token at `p1`: their tokens
/// with that token between them are the tokens consumed, and the hull of
/// their spans is what those tokens cover.
pub proof fn lemma_join(
    ts: Tokens,
    pos: nat,
    p1: nat,
    p3: nat,
    l_span: Span,
    l_tokens: Seq<TokenV>,
    r_span: Span,
    r_tokens: Seq<TokenV>,
)
    requires
        read_ok(ts, pos, p1, l_span, l_tokens, true),
        read_ok(ts, p1 + 1, p3, r_span, r_tokens, true),
    ensures
        pos < p3 <= ts.len(),
        consumed(ts, pos, p3) == l_tokens + seq![*ts[p1 as int].data]
            + r_tokens,
        ordered(ts) ==> {
            &&& l_span.hull(r_span) == cover(ts, pos, p3)
            &&& cover(ts, pos, p3).contains(l_span)
            &&& cover(ts, pos, p3).contains(r_span)
            &&& cover(ts, pos, p3).contains(ts[p1 as int].span)
        },
{
    lemma_kinds_split(ts, pos, p1, p3);
    lemma_kinds_split(ts, p1, p1 + 1, p3);
    lemma_kinds_one(ts, p1);
    assert(consumed(ts, pos, p3) =~= l_tokens + seq![*ts[p1 as int].data]
        + r_tokens);
    if ordered(ts) {
        lemma_cover_hull(ts, pos, p1, p1 + 1, p3);
        lemma_cover_contains(ts, pos, p3, pos, p1);
        lemma_cover_contains(ts, pos, p3, p1 + 1, p3);
        lemma_cover_contains(ts, pos, p3, p1, p1 + 1);
    }
}

/// A value read behind the one token at `pos`.
pub proof fn lemma_behind(ts: Tokens, pos: nat, p2: nat, r_span: Span, r_tokens: Seq<TokenV>)
    requires
        read_ok(ts, pos + 1, p2, r_span, r_tokens, true),
    ensures
        pos < p2 <= ts.len(),
        consumed(ts, pos, p2) == seq![*ts[pos as int].data] + r_tokens,
        ordered(ts) ==> {
            &&& ts[pos as int].span.hull(r_span) == cover(ts, pos, p2)
            &&& cover(ts, pos, p2).contains(r_span)
            &&& cover(ts, pos, p2).contains(ts[pos as int].span)
        },
{
    lemma_kinds_split(ts, pos, pos + 1, p2);
    lemma_kinds_one(ts, pos);
    if ordered(ts) {
        lemma_cover_hull(ts, pos, pos + 1, pos + 1, p2);
        lemma_cover_contains(ts, pos, p2, pos + 1, p2);
        lemma_cover_contains(ts, pos, p2, pos, pos + 1);
    }
}

/// A value read in front of the one token at `p1`.
pub proof fn lemma_before(ts: Tokens, pos: nat, p1: nat, l_span: Span, l_tokens: Seq<TokenV>)
    requires
        read_ok(ts, pos, p1, l_span, l_tokens, true),
        p1 < ts.len(),
    ensures
        consumed(ts, pos, p1 + 1) == l_tokens + seq![*ts[p1 as int].data],
        ordered(ts) ==> {
            &&& l_span.hull(ts[p1 as int].span) == cover(ts, pos, p1 + 1)
            &&& cover(ts, pos, p1 + 1).contains(l_span)
            &&& cover(ts, pos, p1 + 1).contains(ts[p1 as int].span)
        },
{
    lemma_kinds_split(ts, pos, p1, p1 + 1);
    lemma_kinds_one(ts, p1);
    if ordered(ts) {
        lemma_cover_hull(ts, pos, p1, p1, p1 + 1);
        lemma_cover_contains(ts, pos, p1 + 1, pos, p1);
        lemma_cover_contains(ts, pos, p1 + 1, p1, p1 + 1);
    }
}

/// A run read between the opening token at `pos` and the closing token at
/// `p1`.
pub proof fn lemma_bracket(ts: Tokens, pos: nat, p1: nat, tokens: Seq<TokenV>)
    requires
        run_ok(ts, pos + 1, p1, tokens, true),
        p1 < ts.len(),
    ensures
        consumed(ts, pos, p1 + 1) == seq![*ts[pos as int].data] + tokens + seq![
            *ts[p1 as int].data,
        ],
        ordered(ts) ==> {
            &&& ts[pos as int].span.hull(ts[p1 as int].span) == cover(ts, pos, p1 + 1)
            &&& forall|s: Span| #[trigger]
                within(ts, pos + 1, p1, s) ==> cover(ts, pos, p1 + 1).contains(s)
        },
{
    lemma_kinds_split(ts, pos, pos + 1, p1 + 1);
    lemma_kinds_split(ts, pos + 1, p1, p1 + 1);
    lemma_kinds_one(ts, pos);
    lemma_kinds_one(ts, p1);
    assert(consumed(ts, pos, p1 + 1) =~= seq![*ts[pos as int].data] + tokens + seq![
        *ts[p1 as int].data,
    ]);
    if ordered(ts) {
        lemma_ordered(ts, pos, p1);
        if pos + 1 < p1 {
            lemma_cover_contains(ts, pos, p1 + 1, pos + 1, p1);
        }
    }
}

/// A span inside a stretch of tokens is inside every longer stretch.
pub proof fn lemma_within_wider(ts: Tokens, a: nat, b: nat, from: nat, to: nat, s: Span)
    requires
        ordered(ts),
        within(ts, a, b, s),
        from <= a,
        b <= to <= ts.len(),
    ensures
        within(ts, from, to, s),
        cover(ts, from, to).contains(s),
{
    lemma_cover_contains(ts, from, to, a, b);
}

/// An operator is read from one token, under that token's span, and the
/// lack of one is a recoverable error.
pub proof fn lemma_operator<O>(ts: Tokens, pos: nat, op: spec_fn(TokenV) -> Option<O>)
    ensures
        grammar::operator(ts, pos, op) matches Ok((k, n)) ==> pos < ts.len() && k == pos + 1
            && n.span == ts[pos as int].span && op(*ts[pos as int].data) == Some(*n.data),
        grammar::operator(ts, pos, op) is Err ==> !(grammar::operator(ts, pos, op)->Err_0
            is Failure),
{
}

/// The same of `adds`.
pub proof fn lemma_adds(ts: Tokens, pos: nat)
    ensures
        grammar::adds(ts, pos) matches Ok((k, n)) ==> pos < ts.len() && k == pos + 1 && n.span
            == ts[pos as int].span && arith_token(*n.data) == *ts[pos as int].data,
{
    lemma_operator(ts, pos, |t: TokenV| grammar::adds_of(t));
}

/// The same of `muls`.
pub proof fn lemma_muls(ts: Tokens, pos: nat)
    ensures
        grammar::muls(ts, pos) matches Ok((k, n)) ==> pos < ts.len() && k == pos + 1 && n.span
            == ts[pos as int].span && arith_token(*n.data) == *ts[pos as int].data,
{
    lemma_operator(ts, pos, |t: TokenV| grammar::muls_of(t));
}

/// The same of `pow`.
pub proof fn lemma_pow(ts: Tokens, pos: nat)
    ensures
        grammar::pow(ts, pos) matches Ok((k, n)) ==> pos < ts.len() && k == pos + 1 && n.span
            == ts[pos as int].span && arith_token(*n.data) == *ts[pos as int].data,
{
    lemma_operator(ts, pos, |t: TokenV| grammar::pow_of(t));
}

/// The same of `eqs`.
pub proof fn lemma_eqs(ts: Tokens, pos: nat)
    ensures
        grammar::eqs(ts, pos) matches Ok((k, n)) ==> pos < ts.len() && k == pos + 1 && n.span
            == ts[pos as int].span && eqs_token(*n.data) == *ts[pos as int].data,
{
    lemma_operator(ts, pos, |t: TokenV| grammar::eqs_of(t));
}

/// The same of `ranges`.
pub proof fn lemma_ranges(ts: Tokens, pos: nat)
    ensures
        grammar::ranges(ts, pos) matches Ok((k, n)) ==> pos < ts.len() && k == pos + 1 && n.span
            == ts[pos as int].span && *ts[pos as int].data == match *n.data {
            OpRange::RANGE => TokenV::RANGE,
            OpRange::RANGEI => TokenV::RANGEI,
        },
{
    lemma_operator(ts, pos, |t: TokenV| grammar::ranges_of(t));
}

/// A numeric literal is read from one token.
pub proof fn lemma_numeric_literal(ts: Tokens, pos: nat)
    ensures
        atom_read(ts, pos, grammar::numeric_literal(ts, pos)),
        grammar::numeric_literal(ts, pos) matches Ok((k, n)) ==> k == pos + 1 && *n.data
            is Integer,
{
    if grammar::numeric_literal(ts, pos) is Ok {
        lemma_kinds_one(ts, pos);
    }
}

/// A primary expression that was read is, as an expression, read from the
/// same tokens.
pub proof fn step_primary_expr(ts: Tokens, pos: nat, p: nat, val: Node<PrimaryV>)
    requires
        primary_read(ts, pos, Ok((p, val))),
    ensures
        expr_read(ts, pos, Ok((p, grammar::primary_expr(val)))),
{
}

/// A numeric literal that was read is, as an expression, read from the
/// same token.
pub proof fn step_atom_expr(ts: Tokens, pos: nat, p: nat, val: Node<AtomV>)
    requires
        atom_read(ts, pos, Ok((p, val))),
    ensures
        expr_read(ts, pos, Ok((p, grammar::atom_expr(val)))),
{
    assert(primary_tokens(PrimaryV::Atom(*val.data)) == atom_tokens(*val.data));
    assert(primary_nested(val.span, PrimaryV::Atom(*val.data)) == atom_nested(
        val.span,
        *val.data,
    ));
}

/// An atom that was read starts a postfix chain read from the same tokens.
pub proof fn step_atom_primary(ts: Tokens, pos: nat, p: nat, val: Node<AtomV>)
    requires
        atom_read(ts, pos, Ok((p, val))),
    ensures
        primary_read(ts, pos, Ok((p, grammar::atom_primary(val)))),
{
}

/// An expression that was read is, as a plain item, read from the same
/// tokens.
pub proof fn step_plain_item(ts: Tokens, pos: nat, p: nat, e: Node<ExprV>)
    requires
        expr_read(ts, pos, Ok((p, e))),
    ensures
        list_item_read(ts, pos, Ok((p, grammar::plain_item(e)))),
{
}

/// A range: optional bounds around the range operator at `p1`.
pub proof fn step_ranged(
    ts: Tokens,
    pos: nat,
    p1: nat,
    p3: nat,
    start: Option<Node<ExprV>>,
    op: Node<OpRange>,
    end: Option<Node<ExprV>>,
)
    requires
        p1 < ts.len(),
        op.span == ts[p1 as int].span,
        *ts[p1 as int].data == match *op.data {
            OpRange::RANGE => TokenV::RANGE,
            OpRange::RANGEI => TokenV::RANGEI,
        },
        match start {
            Some(s) => expr_read(ts, pos, Ok((p1, s))),
            None => p1 == pos,
        },
        match end {
            Some(e) => expr_read(ts, p1 + 1, Ok((p3, e))),
            None => p3 == p1 + 1 && *op.data == OpRange::RANGE,
        },
    ensures
        expr_read(ts, pos, Ok((p3, grammar::ranged(start, op, end)))),
{
    let n = grammar::ranged(start, op, end);
    let r = n.data->Range_0;
    assert(expr_tokens(*n.data) == range_tokens(r));
    assert(expr_nested(n.span, *n.data) == range_nested(n.span, r));
    match (start, end) {
        (Some(s), Some(e)) => {
            lemma_join(
                ts,
                pos,
                p1,
                p3,
                s.span,
                expr_tokens(*s.data),
                e.span,
                expr_tokens(*e.data),
            );
            assert(range_tokens(r) == expr_tokens(*s.data) + seq![*ts[p1 as int].data]
                + expr_tokens(*e.data));
            assert(ordered(ts) ==> range_nested(n.span, r));
        },
        (Some(s), None) => {
            lemma_before(ts, pos, p1, s.span, expr_tokens(*s.data));
            assert(range_tokens(r) == expr_tokens(*s.data) + seq![*ts[p1 as int].data]);
            assert(ordered(ts) ==> range_nested(n.span, r));
        },
        (None, Some(e)) => {
            lemma_behind(ts, pos, p3, e.span, expr_tokens(*e.data));
            assert(range_tokens(r) == seq![*ts[p1 as int].data] + expr_tokens(*e.data));
            assert(ordered(ts) ==> range_nested(n.span, r));
        },
        (None, None) => {
            lemma_kinds_one(ts, pos);
            assert(range_tokens(r) == seq![TokenV::RANGE]);
            assert(range_nested(n.span, r));
        },
    }
}

/// One comparison: a left operand, the operator at `p1`, a right operand.
pub proof fn step_compare(
    ts: Tokens,
    pos: nat,
    p1: nat,
    p2: nat,
    lhs: Node<ExprV>,
    op: Node<OpEqs>,
    rhs: Node<ExprV>,
)
    requires
        expr_read(ts, pos, Ok((p1, lhs))),
        c_tail_read(ts, p1, Ok((p2, (op, rhs)))),
    ensures
        expr_read(ts, pos, Ok((p2, grammar::compared(lhs, Some((op, rhs)), None)))),
{
    lemma_join(
        ts,
        pos,
        p1,
        p2,
        lhs.span,
        expr_tokens(*lhs.data),
        rhs.span,
        expr_tokens(*rhs.data),
    );
}

/// Two comparisons: operands around the operators at `p1` and `p2`.
pub proof fn step_compare_bound(
    ts: Tokens,
    pos: nat,
    p1: nat,
    p2: nat,
    p3: nat,
    lhs: Node<ExprV>,
    l_op: Node<OpEqs>,
    val: Node<ExprV>,
    r_op: Node<OpEqs>,
    rhs: Node<ExprV>,
)
    requires
        expr_read(ts, pos, Ok((p1, lhs))),
        c_tail_read(ts, p1, Ok((p2, (l_op, val)))),
        c_tail_read(ts, p2, Ok((p3, (r_op, rhs)))),
    ensures
        expr_read(
            ts,
            pos,
            Ok((p3, grammar::compared(lhs, Some((l_op, val)), Some((r_op, rhs))))),
        ),
{
    lemma_join(
        ts,
        pos,
        p1,
        p2,
        lhs.span,
        expr_tokens(*lhs.data),
        val.span,
        expr_tokens(*val.data),
    );
    lemma_join(
        ts,
        pos,
        p2,
        p3,
        cover(ts, pos, p2),
        consumed(ts, pos, p2),
        rhs.span,
        expr_tokens(*rhs.data),
    );
    if ordered(ts) {
        lemma_cover_hull(ts, pos, p1, p2 + 1, p3);
        lemma_cover_contains(ts, pos, p3, pos, p1);
        lemma_cover_contains(ts, pos, p3, p1, p1 + 1);
        lemma_cover_contains(ts, pos, p3, p1 + 1, p2);
    }
}

/// One token that is an atom by itself.
pub proof fn step_leaf(ts: Tokens, pos: nat, a: AtomV)
    requires
        pos < ts.len(),
        atom_tokens(a) == seq![*ts[pos as int].data],
        a is Id || a is Integer || a is String || a is Boolean || a is Null,
    ensures
        atom_read(ts, pos, Ok((pos + 1, node(ts[pos as int].span, a)))),
{
    lemma_kinds_one(ts, pos);
}

/// Items between the parenthesis at `pos` and the one at `p1`.
pub proof fn step_grouped(ts: Tokens, pos: nat, p1: nat, items: Seq<Node<ListItemV>>)
    requires
        list_run(ts, pos + 1, Ok((p1, items))),
        p1 < ts.len(),
        *ts[pos as int].data == TokenV::LPAREN,
        *ts[p1 as int].data == TokenV::RPAREN,
    ensures
        atom_read(
            ts,
            pos,
            Ok(
                (
                    p1 + 1,
                    node(
                        ts[pos as int].span.hull(ts[p1 as int].span),
                        grammar::grouped(items),
                    ),
                ),
            ),
        ),
{
    lemma_bracket(ts, pos, p1, list_items_tokens(items, items.len()));
    let span = ts[pos as int].span.hull(ts[p1 as int].span);
    if items.len() == 1 {
        assert(list_items_tokens(items, 1) == list_item_tokens(*items[0].data));
    }
    if ordered(ts) {
        assert forall|i: int| #![trigger items[i]] 0 <= i < items.len() implies span.contains(
            items[i].span,
        ) && list_item_nested(items[i].span, *items[i].data) by {
            assert(within(ts, pos + 1, p1, items[i].span));
        }
        assert(list_items_nested(span, items));
        if items.len() == 1 {
            let _ = items[0];
        }
    }
}

/// Items between the bracket at `pos` and the one at `p1`.
pub proof fn step_list_display(ts: Tokens, pos: nat, p1: nat, items: Seq<Node<ListItemV>>)
    requires
        list_run(ts, pos + 1, Ok((p1, items))),
        p1 < ts.len(),
        *ts[pos as int].data == TokenV::LBRACKET,
        *ts[p1 as int].data == TokenV::RBRACKET,
    ensures
        atom_read(
            ts,
            pos,
            Ok(
                (
                    p1 + 1,
                    node(
                        ts[pos as int].span.hull(ts[p1 as int].span),
                        AtomV::ListDisplay(items),
                    ),
                ),
            ),
        ),
{
    lemma_bracket(ts, pos, p1, list_items_tokens(items, items.len()));
    let span = ts[pos as int].span.hull(ts[p1 as int].span);
    if ordered(ts) {
        assert forall|i: int| #![trigger items[i]] 0 <= i < items.len() implies span.contains(
            items[i].span,
        ) && list_item_nested(items[i].span, *items[i].data) by {
            assert(within(ts, pos + 1, p1, items[i].span));
        }
        assert(list_items_nested(span, items));
    }
}

/// Items between the brace at `pos` and the one at `p1`.
pub proof fn step_dict_display(ts: Tokens, pos: nat, p1: nat, items: Seq<Node<DictItemV>>)
    requires
        dict_run(ts, pos + 1, Ok((p1, items))),
        p1 < ts.len(),
        *ts[pos as int].data == TokenV::LBRACE,
        *ts[p1 as int].data == TokenV::RBRACE,
    ensures
        atom_read(
            ts,
            pos,
            Ok(
                (
                    p1 + 1,
                    node(
                        ts[pos as int].span.hull(ts[p1 as int].span),
                        AtomV::DictDisplay(items),
                    ),
                ),
            ),
        ),
{
    lemma_bracket(ts, pos, p1, dict_items_tokens(items, items.len()));
    let span = ts[pos as int].span.hull(ts[p1 as int].span);
    if ordered(ts) {
        assert forall|i: int| #![trigger items[i]] 0 <= i < items.len() implies span.contains(
            items[i].span,
        ) && dict_item_nested(items[i].span, *items[i].data) by {
            assert(within(ts, pos + 1, p1, items[i].span));
        }
        assert(dict_items_nested(span, items));
    }
}

/// `.` at `pos` and a name behind it.
pub proof fn step_attribute(ts: Tokens, pos: nat)
    requires
        pos + 1 < ts.len(),
        *ts[pos as int].data == TokenV::DOT,
        *ts[(pos + 1) as int].data is Id,
    ensures
        suffix_read(
            ts,
            pos,
            Ok(
                (
                    pos + 2,
                    node(
                        ts[(pos + 1) as int].span,
                        SuffixV::Attribute(
                            node(
                                ts[(pos + 1) as int].span,
                                ts[(pos + 1) as int].data->Id_0,
                            ),
                        ),
                    ),
                ),
            ),
        ),
{
    lemma_kinds_split(ts, pos, pos + 1, pos + 2);
    lemma_kinds_one(ts, pos);
    lemma_kinds_one(ts, pos + 1);
    assert(consumed(ts, pos, pos + 2) =~= seq![
        *ts[pos as int].data,
        *ts[(pos + 1) as int].data,
    ]);
}

/// Expressions between the bracket at `pos` and the one at `p1`.
pub proof fn step_subscription(ts: Tokens, pos: nat, p1: nat, items: Seq<Node<ExprV>>)
    requires
        exprs_run(ts, pos + 1, Ok((p1, items))),
        p1 < ts.len(),
        *ts[pos as int].data == TokenV::LBRACKET,
        *ts[p1 as int].data == TokenV::RBRACKET,
    ensures
        suffix_read(
            ts,
            pos,
            Ok((p1 + 1, node(ts[p1 as int].span, SuffixV::Subscription(items)))),
        ),
{
    lemma_bracket(ts, pos, p1, exprs_tokens(items, items.len()));
    if ordered(ts) {
        assert forall|i: int| #![trigger items[i]] 0 <= i < items.len() implies within(
            ts,
            pos,
            p1 + 1,
            items[i].span,
        ) && expr_nested(items[i].span, *items[i].data) by {
            lemma_within_wider(ts, pos + 1, p1, pos, p1 + 1, items[i].span);
        }
    }
}

/// Arguments between the parenthesis at `pos` and the one at `p1`.
pub proof fn step_call(ts: Tokens, pos: nat, p1: nat, items: Seq<Node<ListItemV>>)
    requires
        list_run(ts, pos + 1, Ok((p1, items))),
        p1 < ts.len(),
        *ts[pos as int].data == TokenV::LPAREN,
        *ts[p1 as int].data == TokenV::RPAREN,
    ensures
        suffix_read(
            ts,
            pos,
            Ok(
                (
                    p1 + 1,
                    node(
                        ts[p1 as int].span,
                        SuffixV::Call(
                            node(ts[pos as int].span.hull(ts[p1 as int].span), items),
                        ),
                    ),
                ),
            ),
        ),
{
    lemma_bracket(ts, pos, p1, list_items_tokens(items, items.len()));
    let span = ts[pos as int].span.hull(ts[p1 as int].span);
    if ordered(ts) {
        assert forall|i: int| #![trigger items[i]] 0 <= i < items.len() implies span.contains(
            items[i].span,
        ) && list_item_nested(items[i].span, *items[i].data) by {
            assert(within(ts, pos + 1, p1, items[i].span));
        }
        assert(list_items_nested(span, items));
    }
}

/// `...` at `pos` and an expression behind it, as a dict item.
pub proof fn step_dict_spread(ts: Tokens, pos: nat, p: nat, e: Node<ExprV>)
    requires
        *ts[pos as int].data == TokenV::SPREAD,
        expr_read(ts, pos + 1, Ok((p, e))),
    ensures
        dict_item_read(
            ts,
            pos,
            Ok((p, node(ts[pos as int].span.hull(e.span), DictItemV::Spread(e)))),
        ),
{
    lemma_behind(ts, pos, p, e.span, expr_tokens(*e.data));
}

/// A key at `pos`, a colon, and a value behind them.
pub proof fn step_key_val(ts: Tokens, pos: nat, p: nat, e: Node<ExprV>)
    requires
        pos + 1 < ts.len(),
        *ts[pos as int].data is Id,
        *ts[(pos + 1) as int].data == TokenV::COLON,
        expr_read(ts, pos + 2, Ok((p, e))),
    ensures
        dict_item_read(
            ts,
            pos,
            Ok(
                (
                    p,
                    node(
                        ts[pos as int].span.hull(e.span),
                        DictItemV::KeyVal {
                            key: node(ts[pos as int].span, ts[pos as int].data->Id_0),
                            val: e,
                        },
                    ),
                ),
            ),
        ),
{
    lemma_kinds_split(ts, pos, pos + 1, p);
    lemma_kinds_split(ts, pos + 1, pos + 2, p);
    lemma_kinds_one(ts, pos);
    lemma_kinds_one(ts, pos + 1);
    assert(consumed(ts, pos, p) =~= seq![*ts[pos as int].data, *ts[(pos + 1) as int].data]
        + expr_tokens(*e.data));
    if ordered(ts) {
        lemma_cover_one(ts, pos);
        lemma_cover_hull(ts, pos, pos + 1, pos + 2, p);
        lemma_cover_contains(ts, pos, p, pos, pos + 1);
        lemma_cover_contains(ts, pos, p, pos + 2, p);
    }
}

/// A key alone at `pos`.
pub proof fn step_shorthand(ts: Tokens, pos: nat)
    requires
        pos < ts.len(),
        *ts[pos as int].data is Id,
    ensures
        dict_item_read(
            ts,
            pos,
            Ok(
                (
                    pos + 1,
                    node(
                        ts[pos as int].span,
                        DictItemV::Shorthand(ts[pos as int].data->Id_0),
                    ),
                ),
            ),
        ),
{
    lemma_kinds_one(ts, pos);
}

/// One expression is a run of one.
pub proof fn step_first_expr(ts: Tokens, pos: nat, p: nat, x: Node<ExprV>)
    requires
        expr_read(ts, pos, Ok((p, x))),
    ensures
        run_ok(ts, pos, p, exprs_tokens(seq![x], 1), exprs_each(ts, pos, p, seq![x])),
{
    let acc = seq![x];
    assert(acc[0] == x);
    if ordered(ts) {
        lemma_cover_contains(ts, pos, p, pos, p);
    }
}

/// One item is a run of one.
pub proof fn step_first_list_item(ts: Tokens, pos: nat, p: nat, x: Node<ListItemV>)
    requires
        list_item_read(ts, pos, Ok((p, x))),
    ensures
        run_ok(ts, pos, p, list_items_tokens(seq![x], 1), list_each(ts, pos, p, seq![x])),
{
    let acc = seq![x];
    assert(acc[0] == x);
    if ordered(ts) {
        lemma_cover_contains(ts, pos, p, pos, p);
    }
}

/// One dict item is a run of one.
pub proof fn step_first_dict_item(ts: Tokens, pos: nat, p: nat, x: Node<DictItemV>)
    requires
        dict_item_read(ts, pos, Ok((p, x))),
    ensures
        run_ok(ts, pos, p, dict_items_tokens(seq![x], 1), dict_each(ts, pos, p, seq![x])),
{
    let acc = seq![x];
    assert(acc[0] == x);
    if ordered(ts) {
        lemma_cover_contains(ts, pos, p, pos, p);
    }
}

/// No item is a run of none.
pub proof fn step_no_items(ts: Tokens, pos: nat)
    requires
        pos <= ts.len(),
    ensures
        run_ok(ts, pos, pos, Seq::<TokenV>::empty(), true),
        exprs_tokens(Seq::<Node<ExprV>>::empty(), 0) == Seq::<TokenV>::empty(),
        list_items_tokens(Seq::<Node<ListItemV>>::empty(), 0) == Seq::<TokenV>::empty(),
        dict_items_tokens(Seq::<Node<DictItemV>>::empty(), 0) == Seq::<TokenV>::empty(),
{
    lemma_kinds_none(ts, pos);
}

/// Every expression that the grammar reads is written with the tokens
/// that were consumed, and in an ordered input it is nested and spans
/// exactly what those tokens cover.
pub proof fn lemma_expr(ts: Tokens, pos: nat)
    ensures
        expr_read(ts, pos, grammar::expr(ts, pos)),
    decreases ts.len() - pos, 18nat,
{
    lemma_assignment_expr(ts, pos);
}

/// The same of `assignment_expr`.
pub proof fn lemma_assignment_expr(ts: Tokens, pos: nat)
    ensures
        expr_read(ts, pos, grammar::assignment_expr(ts, pos)),
    decreases ts.len() - pos, 17nat,
{
    lemma_conditional_expr(ts, pos);
    if let Ok((p1, lhs)) = grammar::conditional_expr(ts, pos) {
        if grammar::tag_at(ts, p1, TokenV::ASSIGNE) {
            lemma_target_of_expr(lhs.span, *lhs.data);
            if let Some(target) = target_of_expr(lhs.span, *lhs.data) {
                lemma_assignment_expr(ts, p1 + 1);
                if let Ok((p2, rhs)) = grammar::assignment_expr(ts, p1 + 1) {
                    lemma_join(
                        ts,
                        pos,
                        p1,
                        p2,
                        lhs.span,
                        expr_tokens(*lhs.data),
                        rhs.span,
                        expr_tokens(*rhs.data),
                    );
                }
            }
        }
    }
}

/// The same of `conditional_expr`.
pub proof fn lemma_conditional_expr(ts: Tokens, pos: nat)
    ensures
        expr_read(ts, pos, grammar::conditional_expr(ts, pos)),
    decreases ts.len() - pos, 16nat,
{
    lemma_if_expr(ts, pos);
    lemma_match_expr(ts, pos);
    lemma_for_expr(ts, pos);
    lemma_while_expr(ts, pos);
    lemma_loop_expr(ts, pos);
    lemma_lambda_expr(ts, pos);
}

/// The same of `if_expr`.
pub proof fn lemma_if_expr(ts: Tokens, pos: nat)
    ensures
        expr_read(ts, pos, grammar::if_expr(ts, pos)),
    decreases ts.len() - pos, 15nat,
{
    lemma_lambda_expr(ts, pos);
}

/// The same of `match_expr`.
pub proof fn lemma_match_expr(ts: Tokens, pos: nat)
    ensures
        expr_read(ts, pos, grammar::match_expr(ts, pos)),
    decreases ts.len() - pos, 15nat,
{
    lemma_lambda_expr(ts, pos);
}

/// The same of `for_expr`.
pub proof fn lemma_for_expr(ts: Tokens, pos: nat)
    ensures
        expr_read(ts, pos, grammar::for_expr(ts, pos)),
    decreases ts.len() - pos, 15nat,
{
    lemma_lambda_expr(ts, pos);
}

/// The same of `while_expr`.
pub proof fn lemma_while_expr(ts: Tokens, pos: nat)
    ensures
        expr_read(ts, pos, grammar::while_expr(ts, pos)),
    decreases ts.len() - pos, 15nat,
{
    lemma_lambda_expr(ts, pos);
}

/// The same of `loop_expr`.
pub proof fn lemma_loop_expr(ts: Tokens, pos: nat)
    ensures
        expr_read(ts, pos, grammar::loop_expr(ts, pos)),
    decreases ts.len() - pos, 15nat,
{
    lemma_lambda_expr(ts, pos);
}

/// The same of `lambda_expr`.
pub proof fn lemma_lambda_expr(ts: Tokens, pos: nat)
    ensures
        expr_read(ts, pos, grammar::lambda_expr(ts, pos)),
    decreases ts.len() - pos, 14nat,
{
    lemma_or_test(ts, pos);
}

/// The same of `or_test`.
pub proof fn lemma_or_test(ts: Tokens, pos: nat)
    ensures
        expr_read(ts, pos, grammar::or_test(ts, pos)),
    decreases ts.len() - pos, 13nat,
{
    lemma_and_test(ts, pos);
    if let Ok((p1, lhs)) = grammar::and_test(ts, pos) {
        if grammar::tag_at(ts, p1, TokenV::OR) {
            lemma_or_test(ts, p1 + 1);
            if let Ok((p2, rhs)) = grammar::or_test(ts, p1 + 1) {
                lemma_join(
                    ts,
                    pos,
                    p1,
                    p2,
                    lhs.span,
                    expr_tokens(*lhs.data),
                    rhs.span,
                    expr_tokens(*rhs.data),
                );
            }
        }
    }
}

/// The same of `and_test`.
pub proof fn lemma_and_test(ts: Tokens, pos: nat)
    ensures
        expr_read(ts, pos, grammar::and_test(ts, pos)),
    decreases ts.len() - pos, 12nat,
{
    lemma_not_test(ts, pos);
    if let Ok((p1, lhs)) = grammar::not_test(ts, pos) {
        if grammar::tag_at(ts, p1, TokenV::AND) {
            lemma_and_test(ts, p1 + 1);
            if let Ok((p2, rhs)) = grammar::and_test(ts, p1 + 1) {
                lemma_join(
                    ts,
                    pos,
                    p1,
                    p2,
                    lhs.span,
                    expr_tokens(*lhs.data),
                    rhs.span,
                    expr_tokens(*rhs.data),
                );
            }
        }
    }
}

/// The same of `not_test`.
pub proof fn lemma_not_test(ts: Tokens, pos: nat)
    ensures
        expr_read(ts, pos, grammar::not_test(ts, pos)),
    decreases ts.len() - pos, 11nat,
{
    if grammar::tag_at(ts, pos, TokenV::NOT) {
        lemma_c_expr(ts, pos + 1);
        if let Ok((p, rhs)) = grammar::c_expr(ts, pos + 1) {
            lemma_behind(ts, pos, p, rhs.span, expr_tokens(*rhs.data));
        }
    } else {
        lemma_c_expr(ts, pos);
    }
}

/// A comparison tail is its operator token and an expression read behind
/// it.
pub open spec fn c_tail_read(
    ts: Tokens,
    pos: nat,
    r: SResult<(Node<OpEqs>, Node<ExprV>)>,
) -> bool {
    &&& grammatical(r)
    &&& r matches Ok((k, (op, rhs))) ==> {
        &&& pos < ts.len()
        &&& op.span == ts[pos as int].span
        &&& eqs_token(*op.data) == *ts[pos as int].data
        &&& read_ok(
            ts,
            pos + 1,
            k,
            rhs.span,
            expr_tokens(*rhs.data),
            expr_nested(rhs.span, *rhs.data),
        )
    }
}

/// The same of `c_tail`.
pub proof fn lemma_c_tail(ts: Tokens, pos: nat)
    ensures
        c_tail_read(ts, pos, grammar::c_tail(ts, pos)),
    decreases ts.len() - pos, 0nat,
{
    lemma_eqs(ts, pos);
    if let Ok((p1, op)) = grammar::eqs(ts, pos) {
        lemma_r_expr(ts, p1);
    }
}

/// The same of `c_expr`.
pub proof fn lemma_c_expr(ts: Tokens, pos: nat)
    ensures
        expr_read(ts, pos, grammar::c_expr(ts, pos)),
    decreases ts.len() - pos, 10nat,
{
    lemma_r_expr(ts, pos);
    if let Ok((p1, lhs)) = grammar::r_expr(ts, pos) {
        lemma_c_tail(ts, p1);
        if let Ok((p2, (l_op, val))) = grammar::c_tail(ts, p1) {
            lemma_c_tail(ts, p2);
            if let Ok((p3, (r_op, rhs))) = grammar::c_tail(ts, p2) {
                step_compare_bound(ts, pos, p1, p2, p3, lhs, l_op, val, r_op, rhs);
            } else {
                step_compare(ts, pos, p1, p2, lhs, l_op, val);
            }
        }
    }
}

/// The same of `r_expr`.
pub proof fn lemma_r_expr(ts: Tokens, pos: nat)
    ensures
        expr_read(ts, pos, grammar::r_expr(ts, pos)),
    decreases ts.len() - pos, 9nat,
{
    lemma_a_expr(ts, pos);
    if let Ok((p1, start)) = grammar::opt(pos, grammar::a_expr(ts, pos)) {
        lemma_ranges(ts, p1);
        if let Ok((p2, op)) = grammar::ranges(ts, p1) {
            if grammar::ahead(ts, pos, p2) {
                lemma_a_expr(ts, p2);
                if let Ok((p3, end)) = grammar::opt(p2, grammar::a_expr(ts, p2)) {
                    if !(end is None && *op.data == OpRange::RANGEI) {
                        step_ranged(ts, pos, p1, p3, start, op, end);
                    }
                }
            }
        }
    }
}

/// The same of `a_expr`.
pub proof fn lemma_a_expr(ts: Tokens, pos: nat)
    ensures
        expr_read(ts, pos, grammar::a_expr(ts, pos)),
    decreases ts.len() - pos, 8nat,
{
    lemma_m_expr(ts, pos);
    if let Ok((p1, lhs)) = grammar::m_expr(ts, pos) {
        lemma_adds(ts, p1);
        if let Ok((p2, op)) = grammar::adds(ts, p1) {
            lemma_a_expr(ts, p2);
            if let Ok((p3, rhs)) = grammar::a_expr(ts, p2) {
                lemma_join(
                    ts,
                    pos,
                    p1,
                    p3,
                    lhs.span,
                    expr_tokens(*lhs.data),
                    rhs.span,
                    expr_tokens(*rhs.data),
                );
            }
        }
    }
}

/// The same of `m_expr`.
pub proof fn lemma_m_expr(ts: Tokens, pos: nat)
    ensures
        expr_read(ts, pos, grammar::m_expr(ts, pos)),
    decreases ts.len() - pos, 7nat,
{
    lemma_p_expr(ts, pos);
    if let Ok((p1, lhs)) = grammar::p_expr(ts, pos) {
        lemma_muls(ts, p1);
        if let Ok((p2, op)) = grammar::muls(ts, p1) {
            lemma_m_expr(ts, p2);
            if let Ok((p3, rhs)) = grammar::m_expr(ts, p2) {
                lemma_join(
                    ts,
                    pos,
                    p1,
                    p3,
                    lhs.span,
                    expr_tokens(*lhs.data),
                    rhs.span,
                    expr_tokens(*rhs.data),
                );
            }
        }
    }
}

/// The same of `p_expr`.
pub proof fn lemma_p_expr(ts: Tokens, pos: nat)
    ensures
        expr_read(ts, pos, grammar::p_expr(ts, pos)),
    decreases ts.len() - pos, 6nat,
{
    lemma_u_expr(ts, pos);
    if let Ok((p1, lhs)) = grammar::u_expr(ts, pos) {
        lemma_pow(ts, p1);
        if let Ok((p2, op)) = grammar::pow(ts, p1) {
            lemma_p_expr(ts, p2);
            if let Ok((p3, rhs)) = grammar::p_expr(ts, p2) {
                lemma_join(
                    ts,
                    pos,
                    p1,
                    p3,
                    lhs.span,
                    expr_tokens(*lhs.data),
                    rhs.span,
                    expr_tokens(*rhs.data),
                );
            }
        }
    }
}

/// The same of `u_expr`.
pub proof fn lemma_u_expr(ts: Tokens, pos: nat)
    ensures
        expr_read(ts, pos, grammar::u_expr(ts, pos)),
    decreases ts.len() - pos, 5nat,
{
    lemma_adds(ts, pos);
    if let Ok((p1, op)) = grammar::adds(ts, pos) {
        lemma_coefficient(ts, p1);
        if let Ok((p2, rhs)) = grammar::coefficient(ts, p1) {
            lemma_behind(ts, pos, p2, rhs.span, expr_tokens(*rhs.data));
        }
    } else {
        lemma_coefficient(ts, pos);
    }
}

/// The same of `coefficient`.
pub proof fn lemma_coefficient(ts: Tokens, pos: nat)
    ensures
        expr_read(ts, pos, grammar::coefficient(ts, pos)),
    decreases ts.len() - pos, 4nat,
{
    lemma_numeric_literal(ts, pos);
    if let Ok((p1, lhs)) = grammar::numeric_literal(ts, pos) {
        lemma_die(ts, p1);
        match grammar::opt(p1, grammar::die(ts, p1)) {
            Ok((p2, Some(rhs))) => {
                lemma_behind(ts, pos, p2, rhs.span, expr_tokens(*rhs.data));
                lemma_cover_one(ts, pos);
            },
            Ok((p2, None)) => {
                step_atom_expr(ts, pos, p1, lhs);
            },
            _ => {},
        }
    } else {
        lemma_die(ts, pos);
    }
}

/// The same of `die`.
pub proof fn lemma_die(ts: Tokens, pos: nat)
    ensures
        expr_read(ts, pos, grammar::die(ts, pos)),
    decreases ts.len() - pos, 3nat,
{
    if grammar::tag_at(ts, pos, TokenV::DIE) && grammar::numeric_literal(ts, pos + 1) is Ok {
        lemma_numeric_literal(ts, pos + 1);
        let rhs = grammar::numeric_literal(ts, pos + 1).unwrap().1;
        lemma_behind(ts, pos, pos + 2, rhs.span, atom_tokens(*rhs.data));
    } else {
        lemma_expr_node(ts, pos);
    }
}

/// The same of `expr_node`.
pub proof fn lemma_expr_node(ts: Tokens, pos: nat)
    ensures
        expr_read(ts, pos, grammar::expr_node(ts, pos)),
    decreases ts.len() - pos, 2nat,
{
    lemma_primary(ts, pos);
    if let Ok((p, val)) = grammar::primary(ts, pos) {
        step_primary_expr(ts, pos, p, val);
    }
}

/// The same of `primary`.
pub proof fn lemma_primary(ts: Tokens, pos: nat)
    ensures
        primary_read(ts, pos, grammar::primary(ts, pos)),
    decreases ts.len() - pos, 1nat,
{
    lemma_atom(ts, pos);
    if let Ok((p1, a)) = grammar::atom(ts, pos) {
        step_atom_primary(ts, pos, p1, a);
        lemma_primary_tail(ts, pos, p1, grammar::atom_primary(a));
    }
}

/// The same of `primary_tail`.
pub proof fn lemma_primary_tail(ts: Tokens, start: nat, pos: nat, lhs: Node<PrimaryV>)
    requires
        read_ok(
            ts,
            start,
            pos,
            lhs.span,
            primary_tokens(*lhs.data),
            primary_nested(lhs.span, *lhs.data),
        ),
    ensures
        grammatical(grammar::primary_tail(ts, pos, lhs)),
        grammar::primary_tail(ts, pos, lhs) matches Ok((k, n)) ==> read_ok(
            ts,
            start,
            k,
            n.span,
            primary_tokens(*n.data),
            primary_nested(n.span, *n.data),
        ),
    decreases ts.len() - pos, 1nat,
{
    lemma_suffix(ts, pos);
    if let Ok((p1, s)) = grammar::suffix(ts, pos) {
        if grammar::ahead(ts, pos, p1) {
            lemma_attach(ts, start, pos, p1, lhs, s);
            lemma_primary_tail(ts, start, p1, grammar::attach(lhs, s));
        }
    }
}

/// A suffix read behind a chain extends what the chain was read from.
pub proof fn lemma_attach(
    ts: Tokens,
    start: nat,
    pos: nat,
    p1: nat,
    lhs: Node<PrimaryV>,
    s: Node<SuffixV>,
)
    requires
        read_ok(
            ts,
            start,
            pos,
            lhs.span,
            primary_tokens(*lhs.data),
            primary_nested(lhs.span, *lhs.data),
        ),
        suffix_read(ts, pos, Ok((p1, s))),
    ensures
        read_ok(
            ts,
            start,
            p1,
            grammar::attach(lhs, s).span,
            primary_tokens(*grammar::attach(lhs, s).data),
            primary_nested(grammar::attach(lhs, s).span, *grammar::attach(lhs, s).data),
        ),
{
    lemma_kinds_split(ts, start, pos, p1);
    let n = grammar::attach(lhs, s);
    assert(primary_tokens(*n.data) == primary_tokens(*lhs.data) + suffix_tokens(*s.data)) by {
        match *s.data {
            SuffixV::Attribute(name) => {},
            SuffixV::Subscription(items) => {
                assert(primary_tokens(*lhs.data) + (seq![TokenV::LBRACKET] + exprs_tokens(
                    items,
                    items.len(),
                ) + seq![TokenV::RBRACKET]) =~= primary_tokens(*lhs.data) + seq![TokenV::LBRACKET]
                    + exprs_tokens(items, items.len()) + seq![TokenV::RBRACKET]);
            },
            SuffixV::Call(args) => {
                assert(primary_tokens(*lhs.data) + (seq![TokenV::LPAREN] + list_items_tokens(
                    *args.data,
                    args.data.len(),
                ) + seq![TokenV::RPAREN]) =~= primary_tokens(*lhs.data) + seq![TokenV::LPAREN]
                    + list_items_tokens(*args.data, args.data.len()) + seq![TokenV::RPAREN]);
            },
        }
    }
    if ordered(ts) {
        lemma_cover_hull(ts, start, pos, (p1 - 1) as nat, p1);
        lemma_cover_contains(ts, start, p1, start, pos);
        lemma_cover_contains(ts, start, p1, (p1 - 1) as nat, p1);
        lemma_cover_contains(ts, start, p1, pos, p1);
        assert(n.span == cover(ts, start, p1));
        assert(n.span.contains(lhs.span));
        match *s.data {
            SuffixV::Attribute(name) => {
                assert(n.span.contains(name.span));
            },
            SuffixV::Subscription(items) => {
                assert forall|i: int| #![trigger items[i]] 0 <= i < items.len() implies child_nested(
                    n.span,
                    items[i],
                ) by {
                    lemma_within_wider(ts, pos, p1, start, p1, items[i].span);
                }
                assert(exprs_nested(n.span, items));
            },
            SuffixV::Call(args) => {
                assert(n.span.contains(args.span));
            },
        }
        assert(primary_nested(n.span, *n.data));
    }
}

/// The same of `suffix`.
pub proof fn lemma_suffix(ts: Tokens, pos: nat)
    ensures
        suffix_read(ts, pos, grammar::suffix(ts, pos)),
    decreases ts.len() - pos, 0nat,
{
    if grammar::tag_at(ts, pos, TokenV::DOT) {
        if pos + 1 < ts.len() && *ts[(pos + 1) as int].data is Id {
            step_attribute(ts, pos);
        }
    } else if grammar::tag_at(ts, pos, TokenV::LBRACKET) {
        lemma_expr_items(ts, pos + 1);
        if let Ok((p1, items)) = grammar::expr_items(ts, pos + 1) {
            if grammar::tag_at(ts, p1, TokenV::RBRACKET) {
                step_subscription(ts, pos, p1, items);
            }
        }
    } else if grammar::tag_at(ts, pos, TokenV::LPAREN) {
        lemma_list_items(ts, pos + 1);
        if let Ok((p1, items)) = grammar::list_items(ts, pos + 1) {
            if grammar::tag_at(ts, p1, TokenV::RPAREN) {
                step_call(ts, pos, p1, items);
            }
        }
    }
}

/// The same of `atom`.
pub proof fn lemma_atom(ts: Tokens, pos: nat)
    ensures
        atom_read(ts, pos, grammar::atom(ts, pos)),
    decreases ts.len() - pos, 0nat,
{
    if pos < ts.len() {
        match *ts[pos as int].data {
            TokenV::Id(x) => {
                step_leaf(ts, pos, AtomV::Id(x));
            },
            TokenV::String(x) => {
                step_leaf(ts, pos, AtomV::String(x));
            },
            TokenV::Boolean(b) => {
                step_leaf(ts, pos, AtomV::Boolean(b));
            },
            TokenV::NULL => {
                step_leaf(ts, pos, AtomV::Null);
            },
            TokenV::LPAREN => {
                lemma_paren_rest(ts, pos);
            },
            TokenV::LBRACKET => {
                lemma_list_rest(ts, pos);
            },
            TokenV::LBRACE => {
                lemma_dict_rest(ts, pos);
            },
            _ => {},
        }
    }
}

/// The same of `paren_rest`.
pub proof fn lemma_paren_rest(ts: Tokens, at: nat)
    requires
        at < ts.len(),
        *ts[at as int].data == TokenV::LPAREN,
    ensures
        atom_read(ts, at, grammar::paren_rest(ts, at + 1, ts[at as int].span)),
    decreases ts.len() - at - 1, 21nat,
{
    let open = ts[at as int].span;
    let r = grammar::paren_rest(ts, at + 1, open);
    lemma_list_items(ts, at + 1);
    match grammar::list_items(ts, at + 1) {
        Ok((p1, items)) => {
            if grammar::tag_at(ts, p1, TokenV::RPAREN) {
                assert(r == Ok::<(nat, Node<AtomV>), KError>(
                    (p1 + 1, node(open.hull(ts[p1 as int].span), grammar::grouped(items))),
                ));
                step_grouped(ts, at, p1, items);
            } else {
                assert(r == grammar::no_match::<Node<AtomV>>(ts, p1));
            }
        },
        Err(e) => {
            assert(r == Err::<(nat, Node<AtomV>), KError>(e));
        },
    }
}

/// The same of `list_rest`.
pub proof fn lemma_list_rest(ts: Tokens, at: nat)
    requires
        at < ts.len(),
        *ts[at as int].data == TokenV::LBRACKET,
    ensures
        atom_read(ts, at, grammar::list_rest(ts, at + 1, ts[at as int].span)),
    decreases ts.len() - at - 1, 21nat,
{
    let open = ts[at as int].span;
    let r = grammar::list_rest(ts, at + 1, open);
    lemma_list_items(ts, at + 1);
    match grammar::list_items(ts, at + 1) {
        Ok((p1, items)) => {
            if grammar::tag_at(ts, p1, TokenV::RBRACKET) {
                assert(r == Ok::<(nat, Node<AtomV>), KError>(
                    (p1 + 1, node(open.hull(ts[p1 as int].span), AtomV::ListDisplay(items))),
                ));
                step_list_display(ts, at, p1, items);
            } else {
                assert(r == grammar::no_match::<Node<AtomV>>(ts, p1));
            }
        },
        Err(e) => {
            assert(r == Err::<(nat, Node<AtomV>), KError>(e));
        },
    }
}

/// The same of `dict_rest`.
pub proof fn lemma_dict_rest(ts: Tokens, at: nat)
    requires
        at < ts.len(),
        *ts[at as int].data == TokenV::LBRACE,
    ensures
        atom_read(ts, at, grammar::dict_rest(ts, at + 1, ts[at as int].span)),
    decreases ts.len() - at - 1, 21nat,
{
    let open = ts[at as int].span;
    let r = grammar::dict_rest(ts, at + 1, open);
    lemma_dict_items(ts, at + 1);
    match grammar::dict_items(ts, at + 1) {
        Ok((p1, items)) => {
            if grammar::tag_at(ts, p1, TokenV::RBRACE) {
                assert(r == Ok::<(nat, Node<AtomV>), KError>(
                    (p1 + 1, node(open.hull(ts[p1 as int].span), AtomV::DictDisplay(items))),
                ));
                step_dict_display(ts, at, p1, items);
            } else {
                assert(r == grammar::no_match::<Node<AtomV>>(ts, p1));
            }
        },
        Err(e) => {
            assert(r == Err::<(nat, Node<AtomV>), KError>(e));
        },
    }
}

/// The same of `list_item`.
pub proof fn lemma_list_item(ts: Tokens, pos: nat)
    ensures
        list_item_read(ts, pos, grammar::list_item(ts, pos)),
    decreases ts.len() - pos, 19nat,
{
    if grammar::tag_at(ts, pos, TokenV::SPREAD) {
        lemma_expr(ts, pos + 1);
        if let Ok((p, e)) = grammar::expr(ts, pos + 1) {
            lemma_behind(ts, pos, p, e.span, expr_tokens(*e.data));
        }
    } else {
        lemma_expr(ts, pos);
        if let Ok((p, e)) = grammar::expr(ts, pos) {
            step_plain_item(ts, pos, p, e);
        }
    }
}

/// The same of `dict_item`.
pub proof fn lemma_dict_item(ts: Tokens, pos: nat)
    ensures
        dict_item_read(ts, pos, grammar::dict_item(ts, pos)),
    decreases ts.len() - pos, 19nat,
{
    if grammar::tag_at(ts, pos, TokenV::SPREAD) {
        lemma_expr(ts, pos + 1);
        if let Ok((p, e)) = grammar::expr(ts, pos + 1) {
            step_dict_spread(ts, pos, p, e);
        }
    } else if pos < ts.len() && *ts[pos as int].data is Id {
        if grammar::tag_at(ts, pos + 1, TokenV::COLON) {
            lemma_expr(ts, pos + 2);
            if let Ok((p, e)) = grammar::expr(ts, pos + 2) {
                step_key_val(ts, pos, p, e);
            }
        } else {
            step_shorthand(ts, pos);
        }
    }
}

/// The same of `expr_items`.
pub proof fn lemma_expr_items(ts: Tokens, pos: nat)
    requires
        pos <= ts.len(),
    ensures
        exprs_run(ts, pos, grammar::expr_items(ts, pos)),
    decreases ts.len() - pos, 20nat,
{
    lemma_expr(ts, pos);
    match grammar::expr(ts, pos) {
        Ok((p1, x)) => {
            step_first_expr(ts, pos, p1, x);
            lemma_more_expr_items(ts, pos, p1, seq![x]);
        },
        Err(_) => {
            if pos <= ts.len() {
                step_no_items(ts, pos);
            }
        },
    }
}

/// The same of `more_expr_items`.
pub proof fn lemma_more_expr_items(ts: Tokens, start: nat, pos: nat, acc: Seq<Node<ExprV>>)
    requires
        acc.len() >= 1,
        start < pos,
        run_ok(ts, start, pos, exprs_tokens(acc, acc.len()), exprs_each(ts, start, pos, acc)),
    ensures
        grammatical(grammar::more_expr_items(ts, pos, acc)),
        grammar::more_expr_items(ts, pos, acc) matches Ok((k, items)) ==> run_ok(
            ts,
            start,
            k,
            exprs_tokens(items, items.len()),
            exprs_each(ts, start, k, items),
        ),
    decreases ts.len() - pos, 20nat,
{
    if grammar::tag_at(ts, pos, TokenV::COMMA) {
        lemma_expr(ts, pos + 1);
        if let Ok((p1, x)) = grammar::expr(ts, pos + 1) {
            let next = acc.push(x);
            lemma_exprs_tokens_push(acc, x);
            lemma_join(
                ts,
                start,
                pos,
                p1,
                cover(ts, start, pos),
                consumed(ts, start, pos),
                x.span,
                expr_tokens(*x.data),
            );
            if ordered(ts) {
                assert forall|i: int| #![trigger next[i]] 0 <= i < next.len() implies within(
                    ts,
                    start,
                    p1,
                    next[i].span,
                ) && expr_nested(next[i].span, *next[i].data) by {
                    if i < acc.len() {
                        assert(next[i] == acc[i]);
                        lemma_within_wider(ts, start, pos, start, p1, acc[i].span);
                    } else {
                        lemma_cover_contains(ts, start, p1, pos + 1, p1);
                    }
                }
            }
            lemma_more_expr_items(ts, start, p1, next);
        }
    }
}

/// The same of `list_items`.
pub proof fn lemma_list_items(ts: Tokens, pos: nat)
    requires
        pos <= ts.len(),
    ensures
        list_run(ts, pos, grammar::list_items(ts, pos)),
    decreases ts.len() - pos, 20nat,
{
    lemma_list_item(ts, pos);
    match grammar::list_item(ts, pos) {
        Ok((p1, x)) => {
            step_first_list_item(ts, pos, p1, x);
            lemma_more_list_items(ts, pos, p1, seq![x]);
        },
        Err(_) => {
            if pos <= ts.len() {
                step_no_items(ts, pos);
            }
        },
    }
}

/// The same of `more_list_items`.
pub proof fn lemma_more_list_items(ts: Tokens, start: nat, pos: nat, acc: Seq<Node<ListItemV>>)
    requires
        acc.len() >= 1,
        start < pos,
        run_ok(ts, start, pos, list_items_tokens(acc, acc.len()), list_each(ts, start, pos, acc)),
    ensures
        grammatical(grammar::more_list_items(ts, pos, acc)),
        grammar::more_list_items(ts, pos, acc) matches Ok((k, items)) ==> run_ok(
            ts,
            start,
            k,
            list_items_tokens(items, items.len()),
            list_each(ts, start, k, items),
        ),
    decreases ts.len() - pos, 20nat,
{
    if grammar::tag_at(ts, pos, TokenV::COMMA) {
        lemma_list_item(ts, pos + 1);
        if let Ok((p1, x)) = grammar::list_item(ts, pos + 1) {
            let next = acc.push(x);
            lemma_list_items_tokens_push(acc, x);
            lemma_join(
                ts,
                start,
                pos,
                p1,
                cover(ts, start, pos),
                consumed(ts, start, pos),
                x.span,
                list_item_tokens(*x.data),
            );
            if ordered(ts) {
                assert forall|i: int| #![trigger next[i]] 0 <= i < next.len() implies within(
                    ts,
                    start,
                    p1,
                    next[i].span,
                ) && list_item_nested(next[i].span, *next[i].data) by {
                    if i < acc.len() {
                        assert(next[i] == acc[i]);
                        lemma_within_wider(ts, start, pos, start, p1, acc[i].span);
                    } else {
                        lemma_cover_contains(ts, start, p1, pos + 1, p1);
                    }
                }
            }
            lemma_more_list_items(ts, start, p1, next);
        }
    }
}

/// The same of `dict_items`.
pub proof fn lemma_dict_items(ts: Tokens, pos: nat)
    requires
        pos <= ts.len(),
    ensures
        dict_run(ts, pos, grammar::dict_items(ts, pos)),
    decreases ts.len() - pos, 20nat,
{
    lemma_dict_item(ts, pos);
    match grammar::dict_item(ts, pos) {
        Ok((p1, x)) => {
            step_first_dict_item(ts, pos, p1, x);
            lemma_more_dict_items(ts, pos, p1, seq![x]);
        },
        Err(_) => {
            if pos <= ts.len() {
                step_no_items(ts, pos);
            }
        },
    }
}

/// The same of `more_dict_items`.
pub proof fn lemma_more_dict_items(ts: Tokens, start: nat, pos: nat, acc: Seq<Node<DictItemV>>)
    requires
        acc.len() >= 1,
        start < pos,
        run_ok(ts, start, pos, dict_items_tokens(acc, acc.len()), dict_each(ts, start, pos, acc)),
    ensures
        grammatical(grammar::more_dict_items(ts, pos, acc)),
        grammar::more_dict_items(ts, pos, acc) matches Ok((k, items)) ==> run_ok(
            ts,
            start,
            k,
            dict_items_tokens(items, items.len()),
            dict_each(ts, start, k, items),
        ),
    decreases ts.len() - pos, 20nat,
{
    if grammar::tag_at(ts, pos, TokenV::COMMA) {
        lemma_dict_item(ts, pos + 1);
        if let Ok((p1, x)) = grammar::dict_item(ts, pos + 1) {
            let next = acc.push(x);
            lemma_dict_items_tokens_push(acc, x);
            lemma_join(
                ts,
                start,
                pos,
                p1,
                cover(ts, start, pos),
                consumed(ts, start, pos),
                x.span,
                dict_item_tokens(*x.data),
            );
            if ordered(ts) {
                assert forall|i: int| #![trigger next[i]] 0 <= i < next.len() implies within(
                    ts,
                    start,
                    p1,
                    next[i].span,
                ) && dict_item_nested(next[i].span, *next[i].data) by {
                    if i < acc.len() {
                        assert(next[i] == acc[i]);
                        lemma_within_wider(ts, start, pos, start, p1, acc[i].span);
                    } else {
                        lemma_cover_contains(ts, start, p1, pos + 1, p1);
                    }
                }
            }
            lemma_more_dict_items(ts, start, p1, next);
        }
    }
}

} // verus!
