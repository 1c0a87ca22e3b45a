use crate::ast::model::{AtomV, DictItemV, ExprV, ListItemV, PrimaryV, TargetV};
use crate::ast::rewrite::{
    target_of_atom, target_of_dict_item, target_of_expr, target_of_list_item,
    targets_of_dict_items, targets_of_list_items,
};
use crate::ast::spans::{
    atom_nested, dict_item_nested, dict_items_nested, expr_nested, list_item_nested,
    list_items_nested, primary_nested, target_dict_item_nested, target_list_item_nested,
    target_list_items_nested, target_nested,
};
use crate::ast::tokens::{
    atom_tokens, dict_item_tokens, dict_items_tokens, expr_tokens, list_item_tokens,
    list_items_tokens, primary_tokens, target_dict_item_tokens, target_dict_items_tokens,
    target_list_item_tokens, target_list_items_tokens, target_tokens,
};
use crate::types::{Node, Span};
use vstd::prelude::*;

verus! {

/// The pattern that an expression stands for keeps the expression's span,
/// is written with the same tokens, and is nested if the expression is.
pub proof fn lemma_target_of_expr(span: Span, e: ExprV)
    ensures
        target_of_expr(span, e) matches Some(t) ==> {
            &&& t.span == span
            &&& target_tokens(*t.data) == expr_tokens(e)
            &&& expr_nested(span, e) ==> target_nested(span, *t.data)
        },
    decreases e,
{
    match e {
        ExprV::Primary(PrimaryV::Atom(a)) => {
            lemma_target_of_atom(span, a);
            assert(primary_tokens(PrimaryV::Atom(a)) == atom_tokens(a));
            assert(primary_nested(span, PrimaryV::Atom(a)) == atom_nested(span, a));
        },
        _ => {},
    }
}

/// The same of an atom.
pub proof fn lemma_target_of_atom(span: Span, a: AtomV)
    ensures
        target_of_atom(span, a) matches Some(t) ==> {
            &&& t.span == span
            &&& target_tokens(*t.data) == atom_tokens(a)
            &&& atom_nested(span, a) ==> target_nested(span, *t.data)
        },
    decreases a,
{
    match a {
        AtomV::Paren(item) => {
            lemma_target_of_list_item(item.span, *item.data);
            if let Some(ti) = target_of_list_item(item.span, *item.data) {
                let items = seq![ti];
                assert(items[0] == ti);
                assert(target_list_items_tokens(items, 1) == target_list_item_tokens(*ti.data));
                if atom_nested(span, a) {
                    assert forall|i: int| #![trigger items[i]] 0 <= i < items.len() implies
                        span.contains(items[i].span) && target_list_item_nested(
                        items[i].span,
                        *items[i].data,
                    ) by {}
                }
            }
        },
        AtomV::Tuple(items) => {
            lemma_targets_of_list_items(span, items, items.len());
        },
        AtomV::ListDisplay(items) => {
            lemma_targets_of_list_items(span, items, items.len());
        },
        AtomV::DictDisplay(items) => {
            lemma_targets_of_dict_items(span, items, items.len());
        },
        _ => {},
    }
}

/// An item's pattern is written with the item's tokens, and lies inside
/// the item's span.
pub proof fn lemma_target_of_list_item(span: Span, item: ListItemV)
    ensures
        target_of_list_item(span, item) matches Some(t) ==> {
            &&& target_list_item_tokens(*t.data) == list_item_tokens(item)
            &&& list_item_nested(span, item) ==> span.contains(t.span) && target_list_item_nested(
                t.span,
                *t.data,
            )
        },
    decreases item,
{
    match item {
        ListItemV::Expr(y) => {
            lemma_target_of_expr(span, y);
        },
        ListItemV::Spread(x) => {
            lemma_target_of_expr(x.span, *x.data);
        },
    }
}

/// The same of a run of items, for the first `n` of them.
pub proof fn lemma_targets_of_list_items(span: Span, items: Seq<Node<ListItemV>>, n: nat)
    requires
        n <= items.len(),
    ensures
        targets_of_list_items(items) matches Some(ts) ==> {
            &&& ts.len() == items.len()
            &&& target_list_items_tokens(ts, n) == list_items_tokens(items, n)
            &&& list_items_nested(span, items) ==> target_list_items_nested(span, ts)
        },
    decreases items, n,
{
    if let Some(ts) = targets_of_list_items(items) {
        if n >= 1 {
            lemma_targets_of_list_items(span, items, (n - 1) as nat);
            lemma_target_of_list_item(items[n - 1].span, *items[n - 1].data);
            assert(ts[n - 1] == target_of_list_item(items[n - 1].span, *items[n - 1].data).unwrap());
        }
        if list_items_nested(span, items) {
            assert forall|i: int| #![trigger ts[i]] 0 <= i < ts.len() implies span.contains(
                ts[i].span,
            ) && target_list_item_nested(ts[i].span, *ts[i].data) by {
                lemma_target_of_list_item(items[i].span, *items[i].data);
                assert(ts[i] == target_of_list_item(items[i].span, *items[i].data).unwrap());
            }
        }
    }
}

/// The same of a dict item.
pub proof fn lemma_target_of_dict_item(span: Span, item: DictItemV)
    ensures
        target_of_dict_item(span, item) matches Some(t) ==> {
            &&& target_dict_item_tokens(*t.data) == dict_item_tokens(item)
            &&& dict_item_nested(span, item) ==> span.contains(t.span) && target_dict_item_nested(
                t.span,
                *t.data,
            )
        },
    decreases item,
{
    match item {
        DictItemV::Shorthand(_) => {},
        DictItemV::Spread(x) => {
            lemma_target_of_expr(x.span, *x.data);
        },
        DictItemV::KeyVal { key, val } => {
            lemma_target_of_expr(val.span, *val.data);
        },
    }
}

/// The same of a run of dict items, for the first `n` of them.
pub proof fn lemma_targets_of_dict_items(span: Span, items: Seq<Node<DictItemV>>, n: nat)
    requires
        n <= items.len(),
    ensures
        targets_of_dict_items(items) matches Some(ts) ==> {
            &&& ts.len() == items.len()
            &&& target_dict_items_tokens(ts, n) == dict_items_tokens(items, n)
            &&& dict_items_nested(span, items) ==> target_nested(span, TargetV::TargetDict(ts))
        },
    decreases items, n,
{
    if let Some(ts) = targets_of_dict_items(items) {
        if n >= 1 {
            lemma_targets_of_dict_items(span, items, (n - 1) as nat);
            lemma_target_of_dict_item(items[n - 1].span, *items[n - 1].data);
            assert(ts[n - 1] == target_of_dict_item(items[n - 1].span, *items[n - 1].data).unwrap());
        }
        if dict_items_nested(span, items) {
            assert forall|i: int| #![trigger ts[i]] 0 <= i < ts.len() implies span.contains(
                ts[i].span,
            ) && target_dict_item_nested(ts[i].span, *ts[i].data) by {
                lemma_target_of_dict_item(items[i].span, *items[i].data);
                assert(ts[i] == target_of_dict_item(items[i].span, *items[i].data).unwrap());
            }
        }
    }
}

} // verus!
