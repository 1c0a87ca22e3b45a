use crate::ast::model::{DictItemV, ExprV, ListItemV};
use crate::ast::tokens::{
    dict_item_tokens, dict_items_tokens, expr_tokens, exprs_tokens, list_item_tokens,
    list_items_tokens,
};
use crate::parser::grammar::Tokens;
use crate::parser::input::ordered;
use crate::token::TokenV;
use crate::types::{Node, Span};
use vstd::prelude::*;

verus! {

/// The tokens of an input without their spans.
pub open spec fn kinds(ts: Tokens) -> Seq<TokenV> {
    Seq::new(ts.len(), |i: int| *ts[i].data)
}

/// The token at `pos`.
pub open spec fn at(ts: Tokens, pos: nat) -> Node<TokenV> {
    ts[pos as int]
}

/// The tokens from `pos` up to `k`, without their spans.
pub open spec fn consumed(ts: Tokens, pos: nat, k: nat) -> Seq<TokenV> {
    kinds(ts).subrange(pos as int, k as int)
}

/// The span from the start of the token at `from` to the end of the last
/// token before `to`.
pub open spec fn cover(ts: Tokens, from: nat, to: nat) -> Span {
    Span { start: ts[from as int].span.start, end: ts[to - 1].span.end }
}

/// `span` lies inside what the tokens from `from` up to `to` cover.
pub open spec fn within(ts: Tokens, from: nat, to: nat, span: Span) -> bool {
    from < to && cover(ts, from, to).contains(span)
}

/// What holds of a value read from the tokens `pos` up to `k`: at least
/// one token was read, the value is written with exactly those tokens,
/// and in an ordered input its span is what they cover and `nest` holds.
pub open spec fn read_ok(
    ts: Tokens,
    pos: nat,
    k: nat,
    span: Span,
    tokens: Seq<TokenV>,
    nest: bool,
) -> bool {
    &&& pos < k <= ts.len()
    &&& tokens == consumed(ts, pos, k)
    &&& ordered(ts) ==> span == cover(ts, pos, k) && nest
}

/// What holds of a run of items read from the tokens `pos` up to `k`.
pub open spec fn run_ok(ts: Tokens, pos: nat, k: nat, tokens: Seq<TokenV>, each: bool) -> bool {
    &&& pos <= k <= ts.len()
    &&& tokens == consumed(ts, pos, k)
    &&& ordered(ts) ==> each
}

/// Two neighbouring stretches of tokens make one.
pub proof fn lemma_kinds_split(ts: Tokens, a: nat, b: nat, c: nat)
    requires
        a <= b <= c <= ts.len(),
    ensures
        consumed(ts, a, c) == consumed(ts, a, b) + consumed(ts, b, c),
{
    assert(consumed(ts, a, c) =~= consumed(ts, a, b)
        + consumed(ts, b, c));
}

/// A stretch of one token.
pub proof fn lemma_kinds_one(ts: Tokens, a: nat)
    requires
        a < ts.len(),
    ensures
        consumed(ts, a, a + 1) == seq![*ts[a as int].data],
{
    assert(consumed(ts, a, a + 1) =~= seq![*ts[a as int].data]);
}

/// A stretch of no token.
pub proof fn lemma_kinds_none(ts: Tokens, a: nat)
    requires
        a <= ts.len(),
    ensures
        consumed(ts, a, a) == Seq::<TokenV>::empty(),
{
    assert(consumed(ts, a, a) =~= Seq::<TokenV>::empty());
}

/// In an ordered input, tokens further right start and end further right.
pub proof fn lemma_ordered(ts: Tokens, i: nat, j: nat)
    requires
        ordered(ts),
        i <= j < ts.len(),
    ensures
        ts[i as int].span.start <= ts[j as int].span.start,
        ts[i as int].span.end <= ts[j as int].span.end,
        ts[i as int].span.start <= ts[j as int].span.end,
        i < j ==> ts[i as int].span.end <= ts[j as int].span.start,
{
    assert(ts[i as int].span.wf());
    assert(ts[j as int].span.wf());
}

/// A part of a stretch of tokens covers a span inside what the whole
/// stretch covers.
pub proof fn lemma_cover_contains(ts: Tokens, a: nat, d: nat, b: nat, c: nat)
    requires
        ordered(ts),
        a <= b < c <= d <= ts.len(),
    ensures
        cover(ts, a, d).contains(cover(ts, b, c)),
        within(ts, a, d, cover(ts, b, c)),
{
    lemma_ordered(ts, a, b);
    lemma_ordered(ts, (c - 1) as nat, (d - 1) as nat);
}

/// The hull of what two stretches cover, the second not starting before
/// the first, is what their union covers.
pub proof fn lemma_cover_hull(ts: Tokens, a: nat, b: nat, c: nat, d: nat)
    requires
        ordered(ts),
        a < b <= d,
        a <= c < d <= ts.len(),
    ensures
        cover(ts, a, b).hull(cover(ts, c, d)) == cover(ts, a, d),
{
    lemma_ordered(ts, a, c);
    lemma_ordered(ts, (b - 1) as nat, (d - 1) as nat);
}

/// One token covers its own span.
pub proof fn lemma_cover_one(ts: Tokens, a: nat)
    requires
        a < ts.len(),
    ensures
        cover(ts, a, a + 1) == ts[a as int].span,
{
}

/// The tokens of the first `n` items do not depend on the items behind.
pub proof fn lemma_exprs_tokens_prefix(items: Seq<Node<ExprV>>, x: Node<ExprV>, n: nat)
    requires
        n <= items.len(),
    ensures
        exprs_tokens(items.push(x), n) == exprs_tokens(items, n),
    decreases n,
{
    if n > 1 {
        lemma_exprs_tokens_prefix(items, x, (n - 1) as nat);
        assert(items.push(x)[n - 1] == items[n - 1]);
    } else if n == 1 {
        assert(items.push(x)[0] == items[0]);
    }
}

/// The same of items.
pub proof fn lemma_list_items_tokens_prefix(
    items: Seq<Node<ListItemV>>,
    x: Node<ListItemV>,
    n: nat,
)
    requires
        n <= items.len(),
    ensures
        list_items_tokens(items.push(x), n) == list_items_tokens(items, n),
    decreases n,
{
    if n > 1 {
        lemma_list_items_tokens_prefix(items, x, (n - 1) as nat);
        assert(items.push(x)[n - 1] == items[n - 1]);
    } else if n == 1 {
        assert(items.push(x)[0] == items[0]);
    }
}

/// The same of dict items.
pub proof fn lemma_dict_items_tokens_prefix(
    items: Seq<Node<DictItemV>>,
    x: Node<DictItemV>,
    n: nat,
)
    requires
        n <= items.len(),
    ensures
        dict_items_tokens(items.push(x), n) == dict_items_tokens(items, n),
    decreases n,
{
    if n > 1 {
        lemma_dict_items_tokens_prefix(items, x, (n - 1) as nat);
        assert(items.push(x)[n - 1] == items[n - 1]);
    } else if n == 1 {
        assert(items.push(x)[0] == items[0]);
    }
}

/// One more item adds a comma and its own tokens.
pub proof fn lemma_exprs_tokens_push(items: Seq<Node<ExprV>>, x: Node<ExprV>)
    ensures
        exprs_tokens(items.push(x), items.len() + 1) == if items.len() == 0 {
            expr_tokens(*x.data)
        } else {
            exprs_tokens(items, items.len()) + seq![TokenV::COMMA] + expr_tokens(*x.data)
        },
{
    lemma_exprs_tokens_prefix(items, x, items.len());
    assert(items.push(x)[items.len() as int] == x);
}

/// The same of items.
pub proof fn lemma_list_items_tokens_push(items: Seq<Node<ListItemV>>, x: Node<ListItemV>)
    ensures
        list_items_tokens(items.push(x), items.len() + 1) == if items.len() == 0 {
            list_item_tokens(*x.data)
        } else {
            list_items_tokens(items, items.len()) + seq![TokenV::COMMA] + list_item_tokens(
                *x.data,
            )
        },
{
    lemma_list_items_tokens_prefix(items, x, items.len());
    assert(items.push(x)[items.len() as int] == x);
}

/// The same of dict items.
pub proof fn lemma_dict_items_tokens_push(items: Seq<Node<DictItemV>>, x: Node<DictItemV>)
    ensures
        dict_items_tokens(items.push(x), items.len() + 1) == if items.len() == 0 {
            dict_item_tokens(*x.data)
        } else {
            dict_items_tokens(items, items.len()) + seq![TokenV::COMMA] + dict_item_tokens(
                *x.data,
            )
        },
{
    lemma_dict_items_tokens_prefix(items, x, items.len());
    assert(items.push(x)[items.len() as int] == x);
}

} // verus!
