use super::atom::{Atom, DictItem, ListItem};
use super::expr::Expr;
use super::model::{
    atom_view, dict_item_nodes_view, expr_view, list_item_nodes_view, node, primary_view, target_dict_item_nodes_view,
    target_list_item_nodes_view, AtomV, DictItemV, ExprV, ListItemV, PrimaryV, TargetDictItemV,
    TargetListItemV, TargetV,
};
use super::primary::Primary;
use super::target::{Target, TargetDictItem, TargetListItem};
use crate::types::{Node, Span};
use vstd::prelude::*;

verus! {

/// The pattern that an expression stands for on the left of `:=`, if it
/// stands for one: an atom that is an identifier or a display whose items
/// all stand for patterns themselves.
pub open spec fn target_of_expr(span: Span, e: ExprV) -> Option<Node<TargetV>>
    decreases e,
{
    match e {
        ExprV::Primary(PrimaryV::Atom(a)) => target_of_atom(span, a),
        _ => None,
    }
}

/// The pattern that an atom stands for, if any. One item in parentheses
/// reads as a tuple pattern of that item.
pub open spec fn target_of_atom(span: Span, a: AtomV) -> Option<Node<TargetV>>
    decreases a,
{
    match a {
        AtomV::Id(x) => Some(node(span, TargetV::Id(x))),
        AtomV::Paren(item) => match target_of_list_item(item.span, *item.data) {
            Some(t) => Some(node(span, TargetV::TargetTuple(seq![t]))),
            None => None,
        },
        AtomV::Tuple(items) => match targets_of_list_items(items) {
            Some(ts) => Some(node(span, TargetV::TargetTuple(ts))),
            None => None,
        },
        AtomV::ListDisplay(items) => match targets_of_list_items(items) {
            Some(ts) => Some(node(span, TargetV::TargetList(ts))),
            None => None,
        },
        AtomV::DictDisplay(items) => match targets_of_dict_items(items) {
            Some(ts) => Some(node(span, TargetV::TargetDict(ts))),
            None => None,
        },
        _ => None,
    }
}

/// A plain item becomes a pattern under its own span; a spread item becomes
/// a spread of the pattern, under the pattern's span.
pub open spec fn target_of_list_item(span: Span, item: ListItemV) -> Option<Node<TargetListItemV>>
    decreases item,
{
    match item {
        ListItemV::Expr(y) => match target_of_expr(span, y) {
            Some(t) => Some(node(t.span, TargetListItemV::Target(*t.data))),
            None => None,
        },
        ListItemV::Spread(x) => match target_of_expr(x.span, *x.data) {
            Some(t) => Some(node(t.span, TargetListItemV::Spread(t))),
            None => None,
        },
    }
}

/// All items as patterns, in order, or `None` if one of them is none.
pub open spec fn targets_of_list_items(items: Seq<Node<ListItemV>>) -> Option<
    Seq<Node<TargetListItemV>>,
>
    decreases items,
{
    if forall|i: int|
        #![trigger items[i]]
        0 <= i < items.len() ==> target_of_list_item(items[i].span, *items[i].data) is Some {
        Some(
            Seq::new(
                items.len(),
                |i: int|
                    if 0 <= i < items.len() {
                        target_of_list_item(items[i].span, *items[i].data).unwrap()
                    } else {
                        arbitrary()
                    },
            ),
        )
    } else {
        None
    }
}

/// A shorthand stays a shorthand, a pair keeps its key, and a spread takes
/// the span of the pattern that it spreads.
pub open spec fn target_of_dict_item(span: Span, item: DictItemV) -> Option<Node<TargetDictItemV>>
    decreases item,
{
    match item {
        DictItemV::Shorthand(y) => Some(node(span, TargetDictItemV::Shorthand(y))),
        DictItemV::Spread(x) => match target_of_expr(x.span, *x.data) {
            Some(t) => Some(node(t.span, TargetDictItemV::Spread(t))),
            None => None,
        },
        DictItemV::KeyVal { key, val } => match target_of_expr(val.span, *val.data) {
            Some(t) => Some(node(span, TargetDictItemV::Pair { key, val: t })),
            None => None,
        },
    }
}

/// All items as patterns, in order, or `None` if one of them is none.
pub open spec fn targets_of_dict_items(items: Seq<Node<DictItemV>>) -> Option<
    Seq<Node<TargetDictItemV>>,
>
    decreases items,
{
    if forall|i: int|
        #![trigger items[i]]
        0 <= i < items.len() ==> target_of_dict_item(items[i].span, *items[i].data) is Some {
        Some(
            Seq::new(
                items.len(),
                |i: int|
                    if 0 <= i < items.len() {
                        target_of_dict_item(items[i].span, *items[i].data).unwrap()
                    } else {
                        arbitrary()
                    },
            ),
        )
    } else {
        None
    }
}

proof fn lemma_list_items_all(items: Seq<Node<ListItemV>>, out: Seq<Node<TargetListItemV>>)
    requires
        out.len() == items.len(),
        forall|i: int|
            #![trigger items[i]]
            0 <= i < items.len() ==> target_of_list_item(items[i].span, *items[i].data) == Some(
                out[i],
            ),
    ensures
        targets_of_list_items(items) == Some(out),
{
    assert(targets_of_list_items(items) is Some);
    assert(targets_of_list_items(items).unwrap() =~= out);
}

proof fn lemma_dict_items_all(items: Seq<Node<DictItemV>>, out: Seq<Node<TargetDictItemV>>)
    requires
        out.len() == items.len(),
        forall|i: int|
            #![trigger items[i]]
            0 <= i < items.len() ==> target_of_dict_item(items[i].span, *items[i].data) == Some(
                out[i],
            ),
    ensures
        targets_of_dict_items(items) == Some(out),
{
    assert(targets_of_dict_items(items) is Some);
    assert(targets_of_dict_items(items).unwrap() =~= out);
}

/// What a rewrite returns, against what the model says it should.
pub open spec fn rewritten<T: View>(r: Result<Node<T>, ()>, model: Option<Node<T::V>>) -> bool {
    match r {
        Ok(t) => model == Some(t@),
        Err(_) => model is None,
    }
}

/// Rewrites an expression into the pattern that it stands for.
pub fn rewrite_expr(span: Span, e: Expr) -> (r: Result<Node<Target>, ()>)
    ensures
        rewritten(r, target_of_expr(span, e@)),
    decreases e,
{
    match e {
        Expr::Primary(Primary::Atom(x)) => rewrite_atom(span, x),
        _ => Err(()),
    }
}

/// Rewrites an atom into the pattern that it stands for.
pub fn rewrite_atom(span: Span, a: Atom) -> (r: Result<Node<Target>, ()>)
    ensures
        rewritten(r, target_of_atom(span, a@)),
    decreases a,
{
    match a {
        Atom::Id(x) => Ok(Node::new(span, Target::Id(x))),
        Atom::Paren(x) => {
            let x = rewrite_list_item(x)?;
            let mut items: Vec<Node<TargetListItem>> = Vec::new();
            items.push(x);
            proof {
                assert(target_list_item_nodes_view(items@) =~= seq![x@]);
            }
            Ok(Node::new(span, Target::TargetTuple(items)))
        },
        Atom::Tuple(x) => {
            let y = rewrite_list_items(x)?;
            Ok(Node::new(span, Target::TargetTuple(y)))
        },
        Atom::ListDisplay(x) => {
            let y = rewrite_list_items(x)?;
            Ok(Node::new(span, Target::TargetList(y)))
        },
        Atom::DictDisplay(x) => {
            let y = rewrite_dict_items(x)?;
            Ok(Node::new(span, Target::TargetDict(y)))
        },
        _ => Err(()),
    }
}

impl Node<Target> {
    /// The pattern that an expression stands for on the left of `:=`, or
    /// an error if it stands for none.
    pub fn try_from_expr(val: Node<Expr>) -> (r: Result<Node<Target>, ()>)
        ensures
            rewritten(r, target_of_expr(val@.span, *val@.data)),
    {
        let Node { span, data } = val;
        rewrite_expr(span, *data)
    }

    /// The pattern that an atom stands for, or an error if it stands for
    /// none.
    pub fn try_from_atom(val: Node<Atom>) -> (r: Result<Node<Target>, ()>)
        ensures
            rewritten(r, target_of_atom(val@.span, *val@.data)),
    {
        let Node { span, data } = val;
        rewrite_atom(span, *data)
    }
}

impl Node<String> {
    /// The name that an expression consists of, under the expression's
    /// span, or an error if the expression is no identifier.
    pub fn try_from_expr(val: &Node<Expr>) -> (r: Result<Node<String>, ()>)
        ensures
            match r {
                Ok(name) => *val@.data == ExprV::Primary(
                    PrimaryV::Atom(AtomV::Id(name.data@)),
                ) && name.span == val.span,
                Err(_) => !(*val@.data is Primary && val@.data->Primary_0 is Atom
                    && val@.data->Primary_0->Atom_0 is Id),
            },
    {
        match &*val.data {
            Expr::Primary(p) => {
                assert(expr_view(*val.data) == ExprV::Primary(primary_view(*p)));
                match p {
                    Primary::Atom(a) => {
                        assert(primary_view(*p) == PrimaryV::Atom(atom_view(*a)));
                        match a {
                            Atom::Id(x) => {
                                assert(atom_view(*a) == AtomV::Id(x@));
                                Ok(Node::new(val.span, x.clone()))
                            },
                            _ => {
                                assert(!(atom_view(*a) is Id));
                                Err(())
                            },
                        }
                    },
                    _ => {
                        assert(!(primary_view(*p) is Atom));
                        Err(())
                    },
                }
            },
            _ => Err(()),
        }
    }
}

fn rewrite_list_item(item: Node<ListItem>) -> (r: Result<Node<TargetListItem>, ()>)
    ensures
        rewritten(r, target_of_list_item(item.span, item.data@)),
    decreases item,
{
    let Node { span, data } = item;
    match *data {
        ListItem::Expr(y) => {
            let Node { span: t_span, data: t_data } = rewrite_expr(span, y)?;
            Ok(Node::new(t_span, TargetListItem::Target(*t_data)))
        },
        ListItem::Spread(x) => {
            let Node { span: x_span, data: x_data } = x;
            let t = rewrite_expr(x_span, *x_data)?;
            let t_span = t.span;
            Ok(Node::new(t_span, TargetListItem::Spread(t)))
        },
    }
}

fn rewrite_list_items(items: Vec<Node<ListItem>>) -> (r: Result<Vec<Node<TargetListItem>>, ()>)
    ensures
        match r {
            Ok(out) => targets_of_list_items(list_item_nodes_view(items@)) == Some(
                target_list_item_nodes_view(out@),
            ),
            Err(_) => targets_of_list_items(list_item_nodes_view(items@)) is None,
        },
    decreases items,
{
    let ghost model = list_item_nodes_view(items@);
    let mut out: Vec<Node<TargetListItem>> = Vec::new();
    let mut ok = true;
    for item in iter: items
        invariant
            iter.seq() == items@,
            model == list_item_nodes_view(items@),
            ok ==> out@.len() == iter.index(),
            ok ==> forall|j: int|
                0 <= j < out@.len() ==> target_of_list_item(model[j].span, *model[j].data) == Some(
                    (#[trigger] out@[j])@,
                ),
            !ok ==> exists|j: int|
                0 <= j < model.len() && target_of_list_item(model[j].span, *model[j].data) is None,
    {
        assert(item == items@[iter.index() as int]);
        assert(model[iter.index() as int] == item@);
        if ok {
            match rewrite_list_item(item) {
                Ok(t) => {
                    out.push(t);
                },
                Err(_) => {
                    ok = false;
                },
            }
        }
    }
    if ok {
        proof {
            let targets = target_list_item_nodes_view(out@);
            assert forall|i: int| #![trigger model[i]] 0 <= i < model.len() implies
                target_of_list_item(model[i].span, *model[i].data) == Some(targets[i]) by {
                let _ = out@[i];
            }
            lemma_list_items_all(model, targets);
        }
        Ok(out)
    } else {
        Err(())
    }
}

fn rewrite_dict_item(item: Node<DictItem>) -> (r: Result<Node<TargetDictItem>, ()>)
    ensures
        rewritten(r, target_of_dict_item(item.span, item.data@)),
    decreases item,
{
    let Node { span, data } = item;
    match *data {
        DictItem::Shorthand(y) => Ok(Node::new(span, TargetDictItem::Shorthand(y))),
        DictItem::Spread(x) => {
            let Node { span: x_span, data: x_data } = x;
            let t = rewrite_expr(x_span, *x_data)?;
            let t_span = t.span;
            Ok(Node::new(t_span, TargetDictItem::Spread(t)))
        },
        DictItem::KeyVal { key, val } => {
            let Node { span: v_span, data: v_data } = val;
            let t = rewrite_expr(v_span, *v_data)?;
            Ok(Node::new(span, TargetDictItem::Pair { key, val: t }))
        },
    }
}

fn rewrite_dict_items(items: Vec<Node<DictItem>>) -> (r: Result<Vec<Node<TargetDictItem>>, ()>)
    ensures
        match r {
            Ok(out) => targets_of_dict_items(dict_item_nodes_view(items@)) == Some(
                target_dict_item_nodes_view(out@),
            ),
            Err(_) => targets_of_dict_items(dict_item_nodes_view(items@)) is None,
        },
    decreases items,
{
    let ghost model = dict_item_nodes_view(items@);
    let mut out: Vec<Node<TargetDictItem>> = Vec::new();
    let mut ok = true;
    for item in iter: items
        invariant
            iter.seq() == items@,
            model == dict_item_nodes_view(items@),
            ok ==> out@.len() == iter.index(),
            ok ==> forall|j: int|
                0 <= j < out@.len() ==> target_of_dict_item(model[j].span, *model[j].data) == Some(
                    (#[trigger] out@[j])@,
                ),
            !ok ==> exists|j: int|
                0 <= j < model.len() && target_of_dict_item(model[j].span, *model[j].data) is None,
    {
        assert(item == items@[iter.index() as int]);
        assert(model[iter.index() as int] == item@);
        if ok {
            match rewrite_dict_item(item) {
                Ok(t) => {
                    out.push(t);
                },
                Err(_) => {
                    ok = false;
                },
            }
        }
    }
    if ok {
        proof {
            let targets = target_dict_item_nodes_view(out@);
            assert forall|i: int| #![trigger model[i]] 0 <= i < model.len() implies
                target_of_dict_item(model[i].span, *model[i].data) == Some(targets[i]) by {
                let _ = out@[i];
            }
            lemma_dict_items_all(model, targets);
        }
        Ok(out)
    } else {
        Err(())
    }
}

} // verus!
