use super::support::kinds;
use crate::ast::model::{
    node, AtomV, DictItemV, ExprV, ListItemV, PrimaryV, TargetDictItemV, TargetListItemV, TargetV,
};
use crate::ast::rewrite::{
    target_of_atom, target_of_dict_item, target_of_expr, target_of_list_item,
    targets_of_dict_items, targets_of_list_items,
};
use crate::ast::shape::{
    atom_shape, bare, dict_item_node_shape, dict_item_shape, dict_items_shape, expr_node_shape,
    expr_shape, exprs_shape, list_item_node_shape, list_item_shape, list_items_shape, nowhere,
    primary_shape, target_dict_item_shape, target_dict_items_shape, target_list_item_shape,
    target_list_items_shape, target_shape,
};
use crate::ast::op::{OpEqs, OpRange};
use crate::ast::shape::range_shape;
use crate::parser::error::KError;
use crate::parser::grammar;
use crate::parser::grammar::{SResult, SuffixV, Tokens};
use crate::token::TokenV;
use crate::types::{Node, Span};
use vstd::prelude::*;

verus! {

/// Two inputs hold the same tokens, whatever their spans.
pub open spec fn same_kinds(a: Tokens, b: Tokens) -> bool {
    kinds(a) == kinds(b)
}

/// Inputs with the same tokens are as long, and hold the same token at
/// every position.
pub proof fn lemma_same_at(a: Tokens, b: Tokens, pos: nat)
    requires
        same_kinds(a, b),
    ensures
        a.len() == b.len(),
        pos < a.len() ==> *a[pos as int].data == *b[pos as int].data,
{
    assert(kinds(a).len() == a.len());
    assert(kinds(b).len() == b.len());
    if pos < a.len() {
        assert(kinds(a)[pos as int] == *a[pos as int].data);
        assert(kinds(b)[pos as int] == *b[pos as int].data);
    }
}

/// Two errors of the same class and kind, whatever their spans.
pub open spec fn same_error(e1: KError, e2: KError) -> bool {
    (e1 is Error <==> e2 is Error) && e1.kind() == e2.kind()
}

/// Two results end at the same position with values that `same` relates,
/// or are errors of the same class.
pub open spec fn alike<T>(r1: SResult<T>, r2: SResult<T>, same: spec_fn(T, T) -> bool) -> bool {
    match (r1, r2) {
        (Ok((k1, x1)), Ok((k2, x2))) => k1 == k2 && same(x1, x2),
        (Err(e1), Err(e2)) => same_error(e1, e2),
        _ => false,
    }
}

/// Two values of the same shape.
pub open spec fn same_leaf<T>(n1: Node<T>, n2: Node<T>) -> bool {
    *n1.data == *n2.data
}

/// Two values of the same shape.
pub open spec fn same_expr(n1: Node<ExprV>, n2: Node<ExprV>) -> bool {
    expr_shape(*n1.data) == expr_shape(*n2.data)
}

/// Two values of the same shape.
pub open spec fn same_primary(n1: Node<PrimaryV>, n2: Node<PrimaryV>) -> bool {
    primary_shape(*n1.data) == primary_shape(*n2.data)
}

/// Two values of the same shape.
pub open spec fn same_atom(n1: Node<AtomV>, n2: Node<AtomV>) -> bool {
    atom_shape(*n1.data) == atom_shape(*n2.data)
}

/// Two values of the same shape.
pub open spec fn same_list_item(n1: Node<ListItemV>, n2: Node<ListItemV>) -> bool {
    list_item_shape(*n1.data) == list_item_shape(*n2.data)
}

/// Two values of the same shape.
pub open spec fn same_dict_item(n1: Node<DictItemV>, n2: Node<DictItemV>) -> bool {
    dict_item_shape(*n1.data) == dict_item_shape(*n2.data)
}

/// Two values of the same shape.
pub open spec fn same_exprs(s1: Seq<Node<ExprV>>, s2: Seq<Node<ExprV>>) -> bool {
    exprs_shape(s1) == exprs_shape(s2)
}

/// Two values of the same shape.
pub open spec fn same_list_items(s1: Seq<Node<ListItemV>>, s2: Seq<Node<ListItemV>>) -> bool {
    list_items_shape(s1) == list_items_shape(s2)
}

/// Two values of the same shape.
pub open spec fn same_dict_items(s1: Seq<Node<DictItemV>>, s2: Seq<Node<DictItemV>>) -> bool {
    dict_items_shape(s1) == dict_items_shape(s2)
}

/// The shape of a suffix.
pub open spec fn suffix_shape(s: SuffixV) -> SuffixV {
    match s {
        SuffixV::Attribute(name) => SuffixV::Attribute(bare(name)),
        SuffixV::Subscription(items) => SuffixV::Subscription(exprs_shape(items)),
        SuffixV::Call(args) => SuffixV::Call(node(nowhere(), list_items_shape(*args.data))),
    }
}

/// Two values of the same shape.
pub open spec fn same_suffix(n1: Node<SuffixV>, n2: Node<SuffixV>) -> bool {
    suffix_shape(*n1.data) == suffix_shape(*n2.data)
}

/// Two values of the same shape.
pub open spec fn same_target_option(t1: Option<Node<TargetV>>, t2: Option<Node<TargetV>>) -> bool {
    match (t1, t2) {
        (Some(x1), Some(x2)) => target_shape(*x1.data) == target_shape(*x2.data),
        (None, None) => true,
        _ => false,
    }
}

/// One more expression adds its shape at the end.
pub proof fn lemma_exprs_shape_push(items: Seq<Node<ExprV>>, x: Node<ExprV>)
    ensures
        exprs_shape(items.push(x)) == exprs_shape(items).push(expr_node_shape(x)),
{
    assert(exprs_shape(items.push(x)) =~= exprs_shape(items).push(expr_node_shape(x)));
}

/// One more item adds its shape at the end.
pub proof fn lemma_list_items_shape_push(items: Seq<Node<ListItemV>>, x: Node<ListItemV>)
    ensures
        list_items_shape(items.push(x)) == list_items_shape(items).push(list_item_node_shape(x)),
{
    assert(list_items_shape(items.push(x)) =~= list_items_shape(items).push(
        list_item_node_shape(x),
    ));
}

/// One more dict item adds its shape at the end.
pub proof fn lemma_dict_items_shape_push(items: Seq<Node<DictItemV>>, x: Node<DictItemV>)
    ensures
        dict_items_shape(items.push(x)) == dict_items_shape(items).push(dict_item_node_shape(x)),
{
    assert(dict_items_shape(items.push(x)) =~= dict_items_shape(items).push(
        dict_item_node_shape(x),
    ));
}

/// Items of the same shape are as many, and of the same shape one by one.
pub proof fn lemma_same_list_items_at(s1: Seq<Node<ListItemV>>, s2: Seq<Node<ListItemV>>, i: int)
    requires
        same_list_items(s1, s2),
    ensures
        s1.len() == s2.len(),
        0 <= i < s1.len() ==> list_item_shape(*s1[i].data) == list_item_shape(*s2[i].data),
{
    assert(list_items_shape(s1).len() == s1.len());
    assert(list_items_shape(s2).len() == s2.len());
    if 0 <= i < s1.len() {
        assert(list_items_shape(s1)[i] == list_item_node_shape(s1[i]));
        assert(list_items_shape(s2)[i] == list_item_node_shape(s2[i]));
    }
}

/// Dict items of the same shape are as many, and of the same shape one by
/// one.
pub proof fn lemma_same_dict_items_at(s1: Seq<Node<DictItemV>>, s2: Seq<Node<DictItemV>>, i: int)
    requires
        same_dict_items(s1, s2),
    ensures
        s1.len() == s2.len(),
        0 <= i < s1.len() ==> dict_item_shape(*s1[i].data) == dict_item_shape(*s2[i].data),
{
    assert(dict_items_shape(s1).len() == s1.len());
    assert(dict_items_shape(s2).len() == s2.len());
    if 0 <= i < s1.len() {
        assert(dict_items_shape(s1)[i] == dict_item_node_shape(s1[i]));
        assert(dict_items_shape(s2)[i] == dict_item_node_shape(s2[i]));
    }
}

/// Expressions of the same shape stand for patterns of the same shape, or
/// both for none.
pub proof fn lemma_alike_target_of_expr(s1: Span, e1: ExprV, s2: Span, e2: ExprV)
    requires
        expr_shape(e1) == expr_shape(e2),
    ensures
        same_target_option(target_of_expr(s1, e1), target_of_expr(s2, e2)),
    decreases e1,
{
    match (e1, e2) {
        (ExprV::Primary(PrimaryV::Atom(a1)), ExprV::Primary(PrimaryV::Atom(a2))) => {
            assert(primary_shape(PrimaryV::Atom(a1)) == PrimaryV::Atom(atom_shape(a1)));
            assert(primary_shape(PrimaryV::Atom(a2)) == PrimaryV::Atom(atom_shape(a2)));
            lemma_alike_target_of_atom(s1, a1, s2, a2);
        },
        (ExprV::Primary(p1), ExprV::Primary(p2)) => {
            assert(primary_shape(p1) == primary_shape(p2));
        },
        _ => {},
    }
}

/// Atoms of the same shape stand for patterns of the same shape, or both
/// for none.
pub proof fn lemma_alike_target_of_atom(s1: Span, a1: AtomV, s2: Span, a2: AtomV)
    requires
        atom_shape(a1) == atom_shape(a2),
    ensures
        same_target_option(target_of_atom(s1, a1), target_of_atom(s2, a2)),
    decreases a1,
{
    match (a1, a2) {
        (AtomV::Paren(i1), AtomV::Paren(i2)) => {
            lemma_alike_target_of_list_item(i1.span, *i1.data, i2.span, *i2.data);
            match (
                target_of_list_item(i1.span, *i1.data),
                target_of_list_item(i2.span, *i2.data),
            ) {
                (Some(t1), Some(t2)) => {
                    assert(target_list_items_shape(seq![t1]) =~= target_list_items_shape(
                        seq![t2],
                    ));
                },
                _ => {},
            }
        },
        (AtomV::Tuple(i1), AtomV::Tuple(i2)) => {
            lemma_alike_targets_of_list_items(i1, i2);
        },
        (AtomV::ListDisplay(i1), AtomV::ListDisplay(i2)) => {
            lemma_alike_targets_of_list_items(i1, i2);
        },
        (AtomV::DictDisplay(i1), AtomV::DictDisplay(i2)) => {
            lemma_alike_targets_of_dict_items(i1, i2);
        },
        _ => {},
    }
}

/// Two values of the same shape.
pub open spec fn same_target_item_option(
    t1: Option<Node<TargetListItemV>>,
    t2: Option<Node<TargetListItemV>>,
) -> bool {
    match (t1, t2) {
        (Some(x1), Some(x2)) => target_list_item_shape(*x1.data) == target_list_item_shape(
            *x2.data,
        ),
        (None, None) => true,
        _ => false,
    }
}

/// Two values of the same shape.
pub open spec fn same_target_dict_item_option(
    t1: Option<Node<TargetDictItemV>>,
    t2: Option<Node<TargetDictItemV>>,
) -> bool {
    match (t1, t2) {
        (Some(x1), Some(x2)) => target_dict_item_shape(*x1.data) == target_dict_item_shape(
            *x2.data,
        ),
        (None, None) => true,
        _ => false,
    }
}

/// Items of the same shape stand for patterns of the same shape, or both
/// for none.
pub proof fn lemma_alike_target_of_list_item(s1: Span, i1: ListItemV, s2: Span, i2: ListItemV)
    requires
        list_item_shape(i1) == list_item_shape(i2),
    ensures
        same_target_item_option(target_of_list_item(s1, i1), target_of_list_item(s2, i2)),
    decreases i1,
{
    match (i1, i2) {
        (ListItemV::Expr(y1), ListItemV::Expr(y2)) => {
            lemma_alike_target_of_expr(s1, y1, s2, y2);
        },
        (ListItemV::Spread(x1), ListItemV::Spread(x2)) => {
            lemma_alike_target_of_expr(x1.span, *x1.data, x2.span, *x2.data);
        },
        _ => {},
    }
}

/// Runs of items of the same shape stand for patterns of the same shape,
/// or both for none.
pub proof fn lemma_alike_targets_of_list_items(
    i1: Seq<Node<ListItemV>>,
    i2: Seq<Node<ListItemV>>,
)
    requires
        same_list_items(i1, i2),
    ensures
        match (targets_of_list_items(i1), targets_of_list_items(i2)) {
            (Some(t1), Some(t2)) => target_list_items_shape(t1) == target_list_items_shape(t2),
            (None, None) => true,
            _ => false,
        },
    decreases i1,
{
    lemma_same_list_items_at(i1, i2, 0);
    assert forall|i: int| 0 <= i < i1.len() implies same_target_item_option(
        target_of_list_item(#[trigger] i1[i].span, *i1[i].data),
        target_of_list_item(i2[i].span, *i2[i].data),
    ) by {
        lemma_same_list_items_at(i1, i2, i);
        lemma_alike_target_of_list_item(i1[i].span, *i1[i].data, i2[i].span, *i2[i].data);
    }
    if targets_of_list_items(i1) is Some {
        assert forall|i: int| #![trigger i2[i]] 0 <= i < i2.len() implies target_of_list_item(
            i2[i].span,
            *i2[i].data,
        ) is Some by {
            let _ = i1[i];
        }
        let t1 = targets_of_list_items(i1).unwrap();
        let t2 = targets_of_list_items(i2).unwrap();
        assert(target_list_items_shape(t1) =~= target_list_items_shape(t2)) by {
            assert forall|i: int| 0 <= i < t1.len() implies target_list_items_shape(t1)[i]
                == target_list_items_shape(t2)[i] by {
                let _ = i1[i];
            }
        }
    } else {
        let j = choose|j: int|
            #![trigger i1[j]]
            0 <= j < i1.len() && !(target_of_list_item(i1[j].span, *i1[j].data) is Some);
        let _ = i2[j];
    }
}

/// Dict items of the same shape stand for patterns of the same shape, or
/// both for none.
pub proof fn lemma_alike_target_of_dict_item(s1: Span, i1: DictItemV, s2: Span, i2: DictItemV)
    requires
        dict_item_shape(i1) == dict_item_shape(i2),
    ensures
        same_target_dict_item_option(target_of_dict_item(s1, i1), target_of_dict_item(s2, i2)),
    decreases i1,
{
    match (i1, i2) {
        (DictItemV::Spread(x1), DictItemV::Spread(x2)) => {
            lemma_alike_target_of_expr(x1.span, *x1.data, x2.span, *x2.data);
        },
        (DictItemV::KeyVal { key: k1, val: v1 }, DictItemV::KeyVal { key: k2, val: v2 }) => {
            lemma_alike_target_of_expr(v1.span, *v1.data, v2.span, *v2.data);
        },
        _ => {},
    }
}

/// Runs of dict items of the same shape stand for patterns of the same
/// shape, or both for none.
pub proof fn lemma_alike_targets_of_dict_items(
    i1: Seq<Node<DictItemV>>,
    i2: Seq<Node<DictItemV>>,
)
    requires
        same_dict_items(i1, i2),
    ensures
        match (targets_of_dict_items(i1), targets_of_dict_items(i2)) {
            (Some(t1), Some(t2)) => target_dict_items_shape(t1) == target_dict_items_shape(t2),
            (None, None) => true,
            _ => false,
        },
    decreases i1,
{
    lemma_same_dict_items_at(i1, i2, 0);
    assert forall|i: int| 0 <= i < i1.len() implies same_target_dict_item_option(
        target_of_dict_item(#[trigger] i1[i].span, *i1[i].data),
        target_of_dict_item(i2[i].span, *i2[i].data),
    ) by {
        lemma_same_dict_items_at(i1, i2, i);
        lemma_alike_target_of_dict_item(i1[i].span, *i1[i].data, i2[i].span, *i2[i].data);
    }
    if targets_of_dict_items(i1) is Some {
        assert forall|i: int| #![trigger i2[i]] 0 <= i < i2.len() implies target_of_dict_item(
            i2[i].span,
            *i2[i].data,
        ) is Some by {
            let _ = i1[i];
        }
        let t1 = targets_of_dict_items(i1).unwrap();
        let t2 = targets_of_dict_items(i2).unwrap();
        assert(target_dict_items_shape(t1) =~= target_dict_items_shape(t2)) by {
            assert forall|i: int| 0 <= i < t1.len() implies target_dict_items_shape(t1)[i]
                == target_dict_items_shape(t2)[i] by {
                let _ = i1[i];
            }
        }
    } else {
        let j = choose|j: int|
            #![trigger i1[j]]
            0 <= j < i1.len() && !(target_of_dict_item(i1[j].span, *i1[j].data) is Some);
        let _ = i2[j];
    }
}

/// Two results that are alike: see [`alike`].
pub open spec fn expr_alike(r1: SResult<Node<ExprV>>, r2: SResult<Node<ExprV>>) -> bool {
    alike(r1, r2, |x: Node<ExprV>, y: Node<ExprV>| same_expr(x, y))
}

/// Two results that are alike: see [`alike`].
pub open spec fn primary_alike(r1: SResult<Node<PrimaryV>>, r2: SResult<Node<PrimaryV>>) -> bool {
    alike(r1, r2, |x: Node<PrimaryV>, y: Node<PrimaryV>| same_primary(x, y))
}

/// Two results that are alike: see [`alike`].
pub open spec fn atom_alike(r1: SResult<Node<AtomV>>, r2: SResult<Node<AtomV>>) -> bool {
    alike(r1, r2, |x: Node<AtomV>, y: Node<AtomV>| same_atom(x, y))
}

/// Two results that are alike: see [`alike`].
pub open spec fn suffix_alike(r1: SResult<Node<SuffixV>>, r2: SResult<Node<SuffixV>>) -> bool {
    alike(r1, r2, |x: Node<SuffixV>, y: Node<SuffixV>| same_suffix(x, y))
}

/// Two results that are alike: see [`alike`].
pub open spec fn list_item_alike(
    r1: SResult<Node<ListItemV>>,
    r2: SResult<Node<ListItemV>>,
) -> bool {
    alike(r1, r2, |x: Node<ListItemV>, y: Node<ListItemV>| same_list_item(x, y))
}

/// Two results that are alike: see [`alike`].
pub open spec fn dict_item_alike(
    r1: SResult<Node<DictItemV>>,
    r2: SResult<Node<DictItemV>>,
) -> bool {
    alike(r1, r2, |x: Node<DictItemV>, y: Node<DictItemV>| same_dict_item(x, y))
}

/// Two results that are alike: see [`alike`].
pub open spec fn exprs_alike(
    r1: SResult<Seq<Node<ExprV>>>,
    r2: SResult<Seq<Node<ExprV>>>,
) -> bool {
    alike(r1, r2, |x: Seq<Node<ExprV>>, y: Seq<Node<ExprV>>| same_exprs(x, y))
}

/// Two results that are alike: see [`alike`].
pub open spec fn list_items_alike(
    r1: SResult<Seq<Node<ListItemV>>>,
    r2: SResult<Seq<Node<ListItemV>>>,
) -> bool {
    alike(r1, r2, |x: Seq<Node<ListItemV>>, y: Seq<Node<ListItemV>>| same_list_items(x, y))
}

/// Two results that are alike: see [`alike`].
pub open spec fn dict_items_alike(
    r1: SResult<Seq<Node<DictItemV>>>,
    r2: SResult<Seq<Node<DictItemV>>>,
) -> bool {
    alike(r1, r2, |x: Seq<Node<DictItemV>>, y: Seq<Node<DictItemV>>| same_dict_items(x, y))
}

/// Two results that are alike: see [`alike`].
pub open spec fn op_alike<O>(r1: SResult<Node<O>>, r2: SResult<Node<O>>) -> bool {
    alike(r1, r2, |x: Node<O>, y: Node<O>| same_leaf(x, y))
}

/// Two results that are alike: see [`alike`].
pub open spec fn c_tail_alike(
    r1: SResult<(Node<OpEqs>, Node<ExprV>)>,
    r2: SResult<(Node<OpEqs>, Node<ExprV>)>,
) -> bool {
    alike(
        r1,
        r2,
        |x: (Node<OpEqs>, Node<ExprV>), y: (Node<OpEqs>, Node<ExprV>)|
            same_leaf(x.0, y.0) && same_expr(x.1, y.1),
    )
}

/// Two values of the same shape.
pub open spec fn same_expr_option(o1: Option<Node<ExprV>>, o2: Option<Node<ExprV>>) -> bool {
    match (o1, o2) {
        (Some(x), Some(y)) => same_expr(x, y),
        (None, None) => true,
        _ => false,
    }
}

/// Two values of the same shape.
pub open spec fn same_tail_option(
    o1: Option<(Node<OpEqs>, Node<ExprV>)>,
    o2: Option<(Node<OpEqs>, Node<ExprV>)>,
) -> bool {
    match (o1, o2) {
        (Some(x), Some(y)) => same_leaf(x.0, y.0) && same_expr(x.1, y.1),
        (None, None) => true,
        _ => false,
    }
}

/// Parts of the same shape make a whole of the same shape.
pub proof fn shape_primary_expr(v1: Node<PrimaryV>, v2: Node<PrimaryV>)
    requires
        same_primary(v1, v2),
    ensures
        same_expr(grammar::primary_expr(v1), grammar::primary_expr(v2)),
{
}

/// Parts of the same shape make a whole of the same shape.
pub proof fn shape_atom_expr(v1: Node<AtomV>, v2: Node<AtomV>)
    requires
        same_atom(v1, v2),
    ensures
        same_expr(grammar::atom_expr(v1), grammar::atom_expr(v2)),
{
    assert(primary_shape(PrimaryV::Atom(*v1.data)) == PrimaryV::Atom(atom_shape(*v1.data)));
    assert(primary_shape(PrimaryV::Atom(*v2.data)) == PrimaryV::Atom(atom_shape(*v2.data)));
}

/// Parts of the same shape make a whole of the same shape.
pub proof fn shape_atom_primary(v1: Node<AtomV>, v2: Node<AtomV>)
    requires
        same_atom(v1, v2),
    ensures
        same_primary(grammar::atom_primary(v1), grammar::atom_primary(v2)),
{
}

/// Parts of the same shape make a whole of the same shape.
pub proof fn shape_plain_item(e1: Node<ExprV>, e2: Node<ExprV>)
    requires
        same_expr(e1, e2),
    ensures
        same_list_item(grammar::plain_item(e1), grammar::plain_item(e2)),
{
}

/// Parts of the same shape make a whole of the same shape.
pub proof fn shape_attach(l1: Node<PrimaryV>, s1: Node<SuffixV>, l2: Node<PrimaryV>, s2: Node<SuffixV>)
    requires
        same_primary(l1, l2),
        same_suffix(s1, s2),
    ensures
        same_primary(grammar::attach(l1, s1), grammar::attach(l2, s2)),
{
}

/// Parts of the same shape make a whole of the same shape.
pub proof fn shape_and(l1: Node<ExprV>, r1: Node<ExprV>, l2: Node<ExprV>, r2: Node<ExprV>)
    requires
        same_expr(l1, l2),
        same_expr(r1, r2),
    ensures
        forall|s1: Span, s2: Span|
            same_expr(
                #[trigger] node(s1, ExprV::And(l1, r1)),
                #[trigger] node(s2, ExprV::And(l2, r2)),
            ),
        forall|s1: Span, s2: Span|
            same_expr(
                #[trigger] node(s1, ExprV::Or(l1, r1)),
                #[trigger] node(s2, ExprV::Or(l2, r2)),
            ),
{
}

/// Parts of the same shape make a whole of the same shape.
pub proof fn shape_dict_display(i1: Seq<Node<DictItemV>>, i2: Seq<Node<DictItemV>>)
    requires
        same_dict_items(i1, i2),
    ensures
        atom_shape(AtomV::DictDisplay(i1)) == atom_shape(AtomV::DictDisplay(i2)),
        atom_shape(AtomV::DictDisplay(i1)) == AtomV::DictDisplay(dict_items_shape(i1)),
{
}

/// Parts of the same shape make a whole of the same shape.
pub proof fn shape_list_display(i1: Seq<Node<ListItemV>>, i2: Seq<Node<ListItemV>>)
    requires
        same_list_items(i1, i2),
    ensures
        atom_shape(AtomV::ListDisplay(i1)) == atom_shape(AtomV::ListDisplay(i2)),
{
}

/// Parts of the same shape make a whole of the same shape.
pub proof fn shape_dict_spread(e1: Node<ExprV>, e2: Node<ExprV>)
    requires
        same_expr(e1, e2),
    ensures
        dict_item_shape(DictItemV::Spread(e1)) == dict_item_shape(DictItemV::Spread(e2)),
{
}

/// Parts of the same shape make a whole of the same shape.
pub proof fn shape_key_val(k1: Node<Seq<char>>, e1: Node<ExprV>, k2: Node<Seq<char>>, e2: Node<ExprV>)
    requires
        *k1.data == *k2.data,
        same_expr(e1, e2),
    ensures
        dict_item_shape(DictItemV::KeyVal { key: k1, val: e1 }) == dict_item_shape(
            DictItemV::KeyVal { key: k2, val: e2 },
        ),
{
}

/// Parts of the same shape make a whole of the same shape.
pub proof fn shape_grouped(i1: Seq<Node<ListItemV>>, i2: Seq<Node<ListItemV>>)
    requires
        same_list_items(i1, i2),
    ensures
        atom_shape(grammar::grouped(i1)) == atom_shape(grammar::grouped(i2)),
{
    lemma_same_list_items_at(i1, i2, 0);
}

/// Parts of the same shape make a whole of the same shape.
pub proof fn shape_ranged(
    s1: Option<Node<ExprV>>,
    op1: Node<OpRange>,
    e1: Option<Node<ExprV>>,
    s2: Option<Node<ExprV>>,
    op2: Node<OpRange>,
    e2: Option<Node<ExprV>>,
)
    requires
        same_expr_option(s1, s2),
        same_leaf(op1, op2),
        same_expr_option(e1, e2),
    ensures
        same_expr(grammar::ranged(s1, op1, e1), grammar::ranged(s2, op2, e2)),
{
    let n1 = grammar::ranged(s1, op1, e1);
    let n2 = grammar::ranged(s2, op2, e2);
    let r1 = n1.data->Range_0;
    let r2 = n2.data->Range_0;
    assert(expr_shape(*n1.data) == ExprV::Range(range_shape(r1)));
    assert(expr_shape(*n2.data) == ExprV::Range(range_shape(r2)));
    assert(range_shape(r1) == range_shape(r2));
}

/// Parts of the same shape make a whole of the same shape.
pub proof fn shape_compared(
    l1: Node<ExprV>,
    v1: Option<(Node<OpEqs>, Node<ExprV>)>,
    r1: Option<(Node<OpEqs>, Node<ExprV>)>,
    l2: Node<ExprV>,
    v2: Option<(Node<OpEqs>, Node<ExprV>)>,
    r2: Option<(Node<OpEqs>, Node<ExprV>)>,
)
    requires
        same_expr(l1, l2),
        same_tail_option(v1, v2),
        same_tail_option(r1, r2),
    ensures
        same_expr(grammar::compared(l1, v1, r1), grammar::compared(l2, v2, r2)),
{
}

/// The same tokens give the same operator.
pub proof fn lemma_alike_operator<O>(
    a: Tokens,
    b: Tokens,
    pos: nat,
    op: spec_fn(TokenV) -> Option<O>,
)
    requires
        same_kinds(a, b),
    ensures
        op_alike(grammar::operator(a, pos, op), grammar::operator(b, pos, op)),
        grammar::operator(a, pos, op) matches Ok((k, _)) ==> k == pos + 1 && pos < a.len(),
        grammar::operator(a, pos, op) matches Err(e) ==> e is Error,
{
    lemma_same_at(a, b, pos);
}

/// The same tokens give the same numeric literal.
pub proof fn lemma_alike_numeric_literal(a: Tokens, b: Tokens, pos: nat)
    requires
        same_kinds(a, b),
    ensures
        atom_alike(grammar::numeric_literal(a, pos), grammar::numeric_literal(b, pos)),
        grammar::numeric_literal(a, pos) matches Ok((k, _)) ==> k == pos + 1 && pos < a.len(),
        grammar::numeric_literal(a, pos) matches Err(e) ==> e is Error,
{
    lemma_same_at(a, b, pos);
}

/// The same tokens carry the same tags.
pub proof fn lemma_alike_tag(a: Tokens, b: Tokens, pos: nat, tag: TokenV)
    requires
        same_kinds(a, b),
    ensures
        grammar::tag_at(a, pos, tag) == grammar::tag_at(b, pos, tag),
        a.len() == b.len(),
{
    lemma_same_at(a, b, pos);
}

/// What the grammar reads does not depend on the spans of the tokens:
/// from the same tokens it reads expressions of the same shape up to the
/// same position, or gives up in the same way.
pub proof fn lemma_alike_expr(a: Tokens, b: Tokens, pos: nat)
    requires
        same_kinds(a, b),
    ensures
        expr_alike(grammar::expr(a, pos), grammar::expr(b, pos)),
    decreases a.len() - pos, 18nat,
{
    lemma_alike_assignment_expr(a, b, pos);
}

/// The same of `assignment_expr`.
pub proof fn lemma_alike_assignment_expr(a: Tokens, b: Tokens, pos: nat)
    requires
        same_kinds(a, b),
    ensures
        expr_alike(grammar::assignment_expr(a, pos), grammar::assignment_expr(b, pos)),
    decreases a.len() - pos, 17nat,
{
    lemma_alike_conditional_expr(a, b, pos);
    if let Ok((p1, l1)) = grammar::conditional_expr(a, pos) {
        let l2 = grammar::conditional_expr(b, pos).unwrap().1;
        lemma_alike_tag(a, b, p1, TokenV::ASSIGNE);
        if grammar::tag_at(a, p1, TokenV::ASSIGNE) {
            lemma_alike_target_of_expr(l1.span, *l1.data, l2.span, *l2.data);
            if target_of_expr(l1.span, *l1.data) is Some && grammar::ahead(a, pos, p1 + 1) {
                lemma_alike_assignment_expr(a, b, p1 + 1);
            }
        }
    }
}

/// The same of `conditional_expr`.
pub proof fn lemma_alike_conditional_expr(a: Tokens, b: Tokens, pos: nat)
    requires
        same_kinds(a, b),
    ensures
        expr_alike(grammar::conditional_expr(a, pos), grammar::conditional_expr(b, pos)),
    decreases a.len() - pos, 16nat,
{
    lemma_alike_if_expr(a, b, pos);
    lemma_alike_match_expr(a, b, pos);
    lemma_alike_for_expr(a, b, pos);
    lemma_alike_while_expr(a, b, pos);
    lemma_alike_loop_expr(a, b, pos);
    lemma_alike_lambda_expr(a, b, pos);
}

/// The same of `if_expr`.
pub proof fn lemma_alike_if_expr(a: Tokens, b: Tokens, pos: nat)
    requires
        same_kinds(a, b),
    ensures
        expr_alike(grammar::if_expr(a, pos), grammar::if_expr(b, pos)),
    decreases a.len() - pos, 15nat,
{
    lemma_alike_lambda_expr(a, b, pos);
}

/// The same of `match_expr`.
pub proof fn lemma_alike_match_expr(a: Tokens, b: Tokens, pos: nat)
    requires
        same_kinds(a, b),
    ensures
        expr_alike(grammar::match_expr(a, pos), grammar::match_expr(b, pos)),
    decreases a.len() - pos, 15nat,
{
    lemma_alike_lambda_expr(a, b, pos);
}

/// The same of `for_expr`.
pub proof fn lemma_alike_for_expr(a: Tokens, b: Tokens, pos: nat)
    requires
        same_kinds(a, b),
    ensures
        expr_alike(grammar::for_expr(a, pos), grammar::for_expr(b, pos)),
    decreases a.len() - pos, 15nat,
{
    lemma_alike_lambda_expr(a, b, pos);
}

/// The same of `while_expr`.
pub proof fn lemma_alike_while_expr(a: Tokens, b: Tokens, pos: nat)
    requires
        same_kinds(a, b),
    ensures
        expr_alike(grammar::while_expr(a, pos), grammar::while_expr(b, pos)),
    decreases a.len() - pos, 15nat,
{
    lemma_alike_lambda_expr(a, b, pos);
}

/// The same of `loop_expr`.
pub proof fn lemma_alike_loop_expr(a: Tokens, b: Tokens, pos: nat)
    requires
        same_kinds(a, b),
    ensures
        expr_alike(grammar::loop_expr(a, pos), grammar::loop_expr(b, pos)),
    decreases a.len() - pos, 15nat,
{
    lemma_alike_lambda_expr(a, b, pos);
}

/// The same of `lambda_expr`.
pub proof fn lemma_alike_lambda_expr(a: Tokens, b: Tokens, pos: nat)
    requires
        same_kinds(a, b),
    ensures
        expr_alike(grammar::lambda_expr(a, pos), grammar::lambda_expr(b, pos)),
    decreases a.len() - pos, 14nat,
{
    lemma_alike_or_test(a, b, pos);
}

/// The same of `or_test`.
pub proof fn lemma_alike_or_test(a: Tokens, b: Tokens, pos: nat)
    requires
        same_kinds(a, b),
    ensures
        expr_alike(grammar::or_test(a, pos), grammar::or_test(b, pos)),
    decreases a.len() - pos, 13nat,
{
    lemma_alike_and_test(a, b, pos);
    if let Ok((p1, l1)) = grammar::and_test(a, pos) {
        let l2 = grammar::and_test(b, pos).unwrap().1;
        lemma_alike_tag(a, b, p1, TokenV::OR);
        if grammar::tag_at(a, p1, TokenV::OR) && grammar::ahead(a, pos, p1 + 1) {
            lemma_alike_or_test(a, b, p1 + 1);
            match (grammar::or_test(a, p1 + 1), grammar::or_test(b, p1 + 1)) {
                (Ok((_, r1)), Ok((_, r2))) => {
                    shape_and(l1, r1, l2, r2);
                },
                _ => {},
            }
        }
    }
}

/// The same of `and_test`.
pub proof fn lemma_alike_and_test(a: Tokens, b: Tokens, pos: nat)
    requires
        same_kinds(a, b),
    ensures
        expr_alike(grammar::and_test(a, pos), grammar::and_test(b, pos)),
    decreases a.len() - pos, 12nat,
{
    lemma_alike_not_test(a, b, pos);
    if let Ok((p1, l1)) = grammar::not_test(a, pos) {
        let l2 = grammar::not_test(b, pos).unwrap().1;
        lemma_alike_tag(a, b, p1, TokenV::AND);
        if grammar::tag_at(a, p1, TokenV::AND) && grammar::ahead(a, pos, p1 + 1) {
            lemma_alike_and_test(a, b, p1 + 1);
            match (grammar::and_test(a, p1 + 1), grammar::and_test(b, p1 + 1)) {
                (Ok((_, r1)), Ok((_, r2))) => {
                    shape_and(l1, r1, l2, r2);
                },
                _ => {},
            }
        }
    }
}

/// The same of `not_test`.
pub proof fn lemma_alike_not_test(a: Tokens, b: Tokens, pos: nat)
    requires
        same_kinds(a, b),
    ensures
        expr_alike(grammar::not_test(a, pos), grammar::not_test(b, pos)),
    decreases a.len() - pos, 11nat,
{
    lemma_alike_tag(a, b, pos, TokenV::NOT);
    if grammar::tag_at(a, pos, TokenV::NOT) {
        lemma_alike_c_expr(a, b, pos + 1);
    } else {
        lemma_alike_c_expr(a, b, pos);
    }
}

/// The same of `c_tail`.
pub proof fn lemma_alike_c_tail(a: Tokens, b: Tokens, pos: nat)
    requires
        same_kinds(a, b),
    ensures
        c_tail_alike(grammar::c_tail(a, pos), grammar::c_tail(b, pos)),
    decreases a.len() - pos, 0nat,
{
    lemma_alike_operator(a, b, pos, |t: TokenV| grammar::eqs_of(t));
    if let Ok((p1, op)) = grammar::eqs(a, pos) {
        lemma_alike_r_expr(a, b, p1);
    }
}

/// The same of `c_expr`.
pub proof fn lemma_alike_c_expr(a: Tokens, b: Tokens, pos: nat)
    requires
        same_kinds(a, b),
    ensures
        expr_alike(grammar::c_expr(a, pos), grammar::c_expr(b, pos)),
    decreases a.len() - pos, 10nat,
{
    lemma_same_at(a, b, pos);
    lemma_alike_r_expr(a, b, pos);
    if let Ok((p1, l1)) = grammar::r_expr(a, pos) {
        let l2 = grammar::r_expr(b, pos).unwrap().1;
        if grammar::ahead(a, pos, p1) {
            lemma_alike_c_tail(a, b, p1);
            if let Ok((p2, v1)) = grammar::opt(p1, grammar::c_tail(a, p1)) {
                let v2 = grammar::opt(p1, grammar::c_tail(b, p1)).unwrap().1;
                if grammar::ahead(a, pos, p2) {
                    lemma_alike_c_tail(a, b, p2);
                    if let Ok((p3, r1)) = grammar::opt(p2, grammar::c_tail(a, p2)) {
                        let r2 = grammar::opt(p2, grammar::c_tail(b, p2)).unwrap().1;
                        shape_compared(l1, v1, r1, l2, v2, r2);
                    }
                }
            }
        }
    }
}

/// The same of `r_expr`.
pub proof fn lemma_alike_r_expr(a: Tokens, b: Tokens, pos: nat)
    requires
        same_kinds(a, b),
    ensures
        expr_alike(grammar::r_expr(a, pos), grammar::r_expr(b, pos)),
    decreases a.len() - pos, 9nat,
{
    lemma_same_at(a, b, pos);
    lemma_alike_a_expr(a, b, pos);
    if let Ok((p1, s1)) = grammar::opt(pos, grammar::a_expr(a, pos)) {
        let s2 = grammar::opt(pos, grammar::a_expr(b, pos)).unwrap().1;
        lemma_alike_operator(a, b, p1, |t: TokenV| grammar::ranges_of(t));
        lemma_same_at(a, b, p1);
        if let Ok((p2, op1)) = grammar::ranges(a, p1) {
            let op2 = grammar::ranges(b, p1).unwrap().1;
            if grammar::ahead(a, pos, p2) {
                lemma_alike_a_expr(a, b, p2);
                if let Ok((p3, e1)) = grammar::opt(p2, grammar::a_expr(a, p2)) {
                    let e2 = grammar::opt(p2, grammar::a_expr(b, p2)).unwrap().1;
                    shape_ranged(s1, op1, e1, s2, op2, e2);
                }
            }
        }
    }
}

/// The same of `a_expr`.
pub proof fn lemma_alike_a_expr(a: Tokens, b: Tokens, pos: nat)
    requires
        same_kinds(a, b),
    ensures
        expr_alike(grammar::a_expr(a, pos), grammar::a_expr(b, pos)),
    decreases a.len() - pos, 8nat,
{
    lemma_same_at(a, b, pos);
    lemma_alike_m_expr(a, b, pos);
    if let Ok((p1, l1)) = grammar::m_expr(a, pos) {
        lemma_alike_operator(a, b, p1, |t: TokenV| grammar::adds_of(t));
        if let Ok((p2, op)) = grammar::adds(a, p1) {
            if grammar::ahead(a, pos, p2) {
                lemma_alike_a_expr(a, b, p2);
            }
        }
    }
}

/// The same of `m_expr`.
pub proof fn lemma_alike_m_expr(a: Tokens, b: Tokens, pos: nat)
    requires
        same_kinds(a, b),
    ensures
        expr_alike(grammar::m_expr(a, pos), grammar::m_expr(b, pos)),
    decreases a.len() - pos, 7nat,
{
    lemma_same_at(a, b, pos);
    lemma_alike_p_expr(a, b, pos);
    if let Ok((p1, l1)) = grammar::p_expr(a, pos) {
        lemma_alike_operator(a, b, p1, |t: TokenV| grammar::muls_of(t));
        if let Ok((p2, op)) = grammar::muls(a, p1) {
            if grammar::ahead(a, pos, p2) {
                lemma_alike_m_expr(a, b, p2);
            }
        }
    }
}

/// The same of `p_expr`.
pub proof fn lemma_alike_p_expr(a: Tokens, b: Tokens, pos: nat)
    requires
        same_kinds(a, b),
    ensures
        expr_alike(grammar::p_expr(a, pos), grammar::p_expr(b, pos)),
    decreases a.len() - pos, 6nat,
{
    lemma_same_at(a, b, pos);
    lemma_alike_u_expr(a, b, pos);
    if let Ok((p1, l1)) = grammar::u_expr(a, pos) {
        lemma_alike_operator(a, b, p1, |t: TokenV| grammar::pow_of(t));
        if let Ok((p2, op)) = grammar::pow(a, p1) {
            if grammar::ahead(a, pos, p2) {
                lemma_alike_p_expr(a, b, p2);
            }
        }
    }
}

/// The same of `u_expr`.
pub proof fn lemma_alike_u_expr(a: Tokens, b: Tokens, pos: nat)
    requires
        same_kinds(a, b),
    ensures
        expr_alike(grammar::u_expr(a, pos), grammar::u_expr(b, pos)),
    decreases a.len() - pos, 5nat,
{
    lemma_alike_operator(a, b, pos, |t: TokenV| grammar::adds_of(t));
    if let Ok((p1, op)) = grammar::adds(a, pos) {
        lemma_alike_coefficient(a, b, p1);
    } else {
        lemma_alike_coefficient(a, b, pos);
    }
}

/// The same of `coefficient`.
pub proof fn lemma_alike_coefficient(a: Tokens, b: Tokens, pos: nat)
    requires
        same_kinds(a, b),
    ensures
        expr_alike(grammar::coefficient(a, pos), grammar::coefficient(b, pos)),
    decreases a.len() - pos, 4nat,
{
    lemma_alike_numeric_literal(a, b, pos);
    if let Ok((p1, l1)) = grammar::numeric_literal(a, pos) {
        let l2 = grammar::numeric_literal(b, pos).unwrap().1;
        lemma_alike_die(a, b, p1);
        shape_atom_expr(l1, l2);
    } else {
        lemma_alike_die(a, b, pos);
    }
}

/// The same of `die`.
pub proof fn lemma_alike_die(a: Tokens, b: Tokens, pos: nat)
    requires
        same_kinds(a, b),
    ensures
        expr_alike(grammar::die(a, pos), grammar::die(b, pos)),
    decreases a.len() - pos, 3nat,
{
    lemma_alike_tag(a, b, pos, TokenV::DIE);
    lemma_alike_numeric_literal(a, b, pos + 1);
    if grammar::tag_at(a, pos, TokenV::DIE) && grammar::numeric_literal(a, pos + 1) is Ok {
    } else {
        lemma_alike_expr_node(a, b, pos);
    }
}

/// The same of `expr_node`.
pub proof fn lemma_alike_expr_node(a: Tokens, b: Tokens, pos: nat)
    requires
        same_kinds(a, b),
    ensures
        expr_alike(grammar::expr_node(a, pos), grammar::expr_node(b, pos)),
    decreases a.len() - pos, 2nat,
{
    lemma_alike_primary(a, b, pos);
    if let Ok((p, v1)) = grammar::primary(a, pos) {
        let v2 = grammar::primary(b, pos).unwrap().1;
        shape_primary_expr(v1, v2);
    }
}

/// The same of `primary`.
pub proof fn lemma_alike_primary(a: Tokens, b: Tokens, pos: nat)
    requires
        same_kinds(a, b),
    ensures
        primary_alike(grammar::primary(a, pos), grammar::primary(b, pos)),
    decreases a.len() - pos, 1nat,
{
    lemma_same_at(a, b, pos);
    lemma_alike_atom(a, b, pos);
    if let Ok((p1, a1)) = grammar::atom(a, pos) {
        let a2 = grammar::atom(b, pos).unwrap().1;
        if grammar::ahead(a, pos, p1) {
            shape_atom_primary(a1, a2);
            lemma_alike_primary_tail(
                a,
                b,
                p1,
                grammar::atom_primary(a1),
                grammar::atom_primary(a2),
            );
        }
    }
}

/// The same of `primary_tail`.
pub proof fn lemma_alike_primary_tail(
    a: Tokens,
    b: Tokens,
    pos: nat,
    l1: Node<PrimaryV>,
    l2: Node<PrimaryV>,
)
    requires
        same_kinds(a, b),
        same_primary(l1, l2),
        pos <= a.len(),
    ensures
        primary_alike(grammar::primary_tail(a, pos, l1), grammar::primary_tail(b, pos, l2)),
    decreases a.len() - pos, 1nat,
{
    lemma_same_at(a, b, pos);
    lemma_alike_suffix(a, b, pos);
    if let Ok((p1, s1)) = grammar::suffix(a, pos) {
        let s2 = grammar::suffix(b, pos).unwrap().1;
        if grammar::ahead(a, pos, p1) {
            shape_attach(l1, s1, l2, s2);
            lemma_alike_primary_tail(a, b, p1, grammar::attach(l1, s1), grammar::attach(l2, s2));
        }
    }
}

/// The same of `suffix`.
pub proof fn lemma_alike_suffix(a: Tokens, b: Tokens, pos: nat)
    requires
        same_kinds(a, b),
    ensures
        suffix_alike(grammar::suffix(a, pos), grammar::suffix(b, pos)),
    decreases a.len() - pos, 0nat,
{
    lemma_same_at(a, b, pos);
    lemma_same_at(a, b, pos + 1);
    if grammar::tag_at(a, pos, TokenV::DOT) {
    } else if grammar::tag_at(a, pos, TokenV::LBRACKET) {
        lemma_alike_expr_items(a, b, pos + 1);
        if let Ok((p1, items)) = grammar::expr_items(a, pos + 1) {
            lemma_same_at(a, b, p1);
        }
    } else if grammar::tag_at(a, pos, TokenV::LPAREN) {
        lemma_alike_list_items(a, b, pos + 1);
        if let Ok((p1, items)) = grammar::list_items(a, pos + 1) {
            lemma_same_at(a, b, p1);
        }
    }
}

/// The same of `atom`.
pub proof fn lemma_alike_atom(a: Tokens, b: Tokens, pos: nat)
    requires
        same_kinds(a, b),
    ensures
        atom_alike(grammar::atom(a, pos), grammar::atom(b, pos)),
    decreases a.len() - pos, 0nat,
{
    lemma_same_at(a, b, pos);
    if pos < a.len() {
        let s1 = a[pos as int].span;
        let s2 = b[pos as int].span;
        let r1 = grammar::atom(a, pos);
        let r2 = grammar::atom(b, pos);
        match *a[pos as int].data {
            TokenV::LPAREN => {
                lemma_alike_paren_rest(a, b, pos + 1, s1, s2);
                assert(r1 == grammar::paren_rest(a, pos + 1, s1));
                assert(r2 == grammar::paren_rest(b, pos + 1, s2));
            },
            TokenV::LBRACKET => {
                lemma_alike_list_rest(a, b, pos + 1, s1, s2);
                assert(r1 == grammar::list_rest(a, pos + 1, s1));
                assert(r2 == grammar::list_rest(b, pos + 1, s2));
            },
            TokenV::LBRACE => {
                lemma_alike_dict_rest(a, b, pos + 1, s1, s2);
                assert(r1 == grammar::dict_rest(a, pos + 1, s1));
                assert(r2 == grammar::dict_rest(b, pos + 1, s2));
            },
            TokenV::Id(x) => {
                assert(r1 == Ok::<(nat, Node<AtomV>), KError>((pos + 1, node(s1, AtomV::Id(x)))));
                assert(r2 == Ok::<(nat, Node<AtomV>), KError>((pos + 1, node(s2, AtomV::Id(x)))));
            },
            TokenV::String(x) => {
                assert(r1 == Ok::<(nat, Node<AtomV>), KError>(
                    (pos + 1, node(s1, AtomV::String(x))),
                ));
                assert(r2 == Ok::<(nat, Node<AtomV>), KError>(
                    (pos + 1, node(s2, AtomV::String(x))),
                ));
            },
            TokenV::Boolean(x) => {
                assert(r1 == Ok::<(nat, Node<AtomV>), KError>(
                    (pos + 1, node(s1, AtomV::Boolean(x))),
                ));
                assert(r2 == Ok::<(nat, Node<AtomV>), KError>(
                    (pos + 1, node(s2, AtomV::Boolean(x))),
                ));
            },
            TokenV::NULL => {
                assert(r1 == Ok::<(nat, Node<AtomV>), KError>((pos + 1, node(s1, AtomV::Null))));
                assert(r2 == Ok::<(nat, Node<AtomV>), KError>((pos + 1, node(s2, AtomV::Null))));
            },
            _ => {
                assert(r1 == grammar::no_match::<Node<AtomV>>(a, pos));
                assert(r2 == grammar::no_match::<Node<AtomV>>(b, pos));
            },
        }
    }
}

/// The same of `paren_rest`.
pub proof fn lemma_alike_paren_rest(a: Tokens, b: Tokens, pos: nat, o1: Span, o2: Span)
    requires
        same_kinds(a, b),
        pos <= a.len(),
    ensures
        atom_alike(grammar::paren_rest(a, pos, o1), grammar::paren_rest(b, pos, o2)),
    decreases a.len() - pos, 21nat,
{
    lemma_alike_list_items(a, b, pos);
    if let Ok((p1, i1)) = grammar::list_items(a, pos) {
        let i2 = grammar::list_items(b, pos).unwrap().1;
        lemma_same_at(a, b, p1);
        shape_grouped(i1, i2);
    }
}

/// The same of `list_rest`.
pub proof fn lemma_alike_list_rest(a: Tokens, b: Tokens, pos: nat, o1: Span, o2: Span)
    requires
        same_kinds(a, b),
        pos <= a.len(),
    ensures
        atom_alike(grammar::list_rest(a, pos, o1), grammar::list_rest(b, pos, o2)),
    decreases a.len() - pos, 21nat,
{
    lemma_alike_list_items(a, b, pos);
    if let Ok((p1, i1)) = grammar::list_items(a, pos) {
        let i2 = grammar::list_items(b, pos).unwrap().1;
        lemma_alike_tag(a, b, p1, TokenV::RBRACKET);
        shape_list_display(i1, i2);
    }
}

/// The same of `dict_rest`.
pub proof fn lemma_alike_dict_rest(a: Tokens, b: Tokens, pos: nat, o1: Span, o2: Span)
    requires
        same_kinds(a, b),
        pos <= a.len(),
    ensures
        atom_alike(grammar::dict_rest(a, pos, o1), grammar::dict_rest(b, pos, o2)),
    decreases a.len() - pos, 21nat,
{
    lemma_alike_dict_items(a, b, pos);
    if let Ok((p1, i1)) = grammar::dict_items(a, pos) {
        let i2 = grammar::dict_items(b, pos).unwrap().1;
        lemma_alike_tag(a, b, p1, TokenV::RBRACE);
        shape_dict_display(i1, i2);
    }
}

/// The same of `list_item`.
pub proof fn lemma_alike_list_item(a: Tokens, b: Tokens, pos: nat)
    requires
        same_kinds(a, b),
    ensures
        list_item_alike(grammar::list_item(a, pos), grammar::list_item(b, pos)),
    decreases a.len() - pos, 19nat,
{
    lemma_alike_tag(a, b, pos, TokenV::SPREAD);
    if grammar::tag_at(a, pos, TokenV::SPREAD) {
        lemma_alike_expr(a, b, pos + 1);
    } else {
        lemma_alike_expr(a, b, pos);
        if let Ok((p, e1)) = grammar::expr(a, pos) {
            let e2 = grammar::expr(b, pos).unwrap().1;
            shape_plain_item(e1, e2);
        }
    }
}

/// The same of `dict_item`.
pub proof fn lemma_alike_dict_item(a: Tokens, b: Tokens, pos: nat)
    requires
        same_kinds(a, b),
    ensures
        dict_item_alike(grammar::dict_item(a, pos), grammar::dict_item(b, pos)),
    decreases a.len() - pos, 19nat,
{
    lemma_same_at(a, b, pos);
    lemma_same_at(a, b, pos + 1);
    lemma_alike_tag(a, b, pos, TokenV::SPREAD);
    lemma_alike_tag(a, b, pos + 1, TokenV::COLON);
    if grammar::tag_at(a, pos, TokenV::SPREAD) {
        lemma_alike_expr(a, b, pos + 1);
        match (grammar::expr(a, pos + 1), grammar::expr(b, pos + 1)) {
            (Ok((_, e1)), Ok((_, e2))) => {
                shape_dict_spread(e1, e2);
            },
            _ => {},
        }
    } else if pos < a.len() && *a[pos as int].data is Id {
        if grammar::tag_at(a, pos + 1, TokenV::COLON) {
            lemma_alike_expr(a, b, pos + 2);
            match (grammar::expr(a, pos + 2), grammar::expr(b, pos + 2)) {
                (Ok((_, e1)), Ok((_, e2))) => {
                    shape_key_val(
                        node(a[pos as int].span, a[pos as int].data->Id_0),
                        e1,
                        node(b[pos as int].span, b[pos as int].data->Id_0),
                        e2,
                    );
                },
                _ => {},
            }
        }
    }
}

/// The same of `expr_items`.
pub proof fn lemma_alike_expr_items(a: Tokens, b: Tokens, pos: nat)
    requires
        same_kinds(a, b),
        pos <= a.len(),
    ensures
        exprs_alike(grammar::expr_items(a, pos), grammar::expr_items(b, pos)),
    decreases a.len() - pos, 20nat,
{
    lemma_same_at(a, b, pos);
    lemma_alike_expr(a, b, pos);
    if let Ok((p1, x1)) = grammar::expr(a, pos) {
        let x2 = grammar::expr(b, pos).unwrap().1;
        if grammar::ahead(a, pos, p1) {
            assert(exprs_shape(seq![x1]) =~= exprs_shape(seq![x2]));
            lemma_alike_more_expr_items(a, b, p1, seq![x1], seq![x2]);
        }
    } else {
        assert(exprs_shape(Seq::<Node<ExprV>>::empty()) =~= exprs_shape(
            Seq::<Node<ExprV>>::empty(),
        ));
    }
}

/// The same of `more_expr_items`.
pub proof fn lemma_alike_more_expr_items(
    a: Tokens,
    b: Tokens,
    pos: nat,
    acc1: Seq<Node<ExprV>>,
    acc2: Seq<Node<ExprV>>,
)
    requires
        same_kinds(a, b),
        same_exprs(acc1, acc2),
        pos <= a.len(),
    ensures
        exprs_alike(
            grammar::more_expr_items(a, pos, acc1),
            grammar::more_expr_items(b, pos, acc2),
        ),
    decreases a.len() - pos, 20nat,
{
    lemma_alike_tag(a, b, pos, TokenV::COMMA);
    if grammar::tag_at(a, pos, TokenV::COMMA) {
        lemma_alike_expr(a, b, pos + 1);
        if let Ok((p1, x1)) = grammar::expr(a, pos + 1) {
            let x2 = grammar::expr(b, pos + 1).unwrap().1;
            if grammar::ahead(a, pos, p1) {
                lemma_exprs_shape_push(acc1, x1);
                lemma_exprs_shape_push(acc2, x2);
                lemma_alike_more_expr_items(a, b, p1, acc1.push(x1), acc2.push(x2));
            }
        }
    }
}

/// The same of `list_items`.
pub proof fn lemma_alike_list_items(a: Tokens, b: Tokens, pos: nat)
    requires
        same_kinds(a, b),
        pos <= a.len(),
    ensures
        list_items_alike(grammar::list_items(a, pos), grammar::list_items(b, pos)),
    decreases a.len() - pos, 20nat,
{
    lemma_same_at(a, b, pos);
    lemma_alike_list_item(a, b, pos);
    if let Ok((p1, x1)) = grammar::list_item(a, pos) {
        let x2 = grammar::list_item(b, pos).unwrap().1;
        if grammar::ahead(a, pos, p1) {
            assert(list_items_shape(seq![x1]) =~= list_items_shape(seq![x2]));
            lemma_alike_more_list_items(a, b, p1, seq![x1], seq![x2]);
        }
    } else {
        assert(list_items_shape(Seq::<Node<ListItemV>>::empty()) =~= list_items_shape(
            Seq::<Node<ListItemV>>::empty(),
        ));
    }
}

/// The same of `more_list_items`.
pub proof fn lemma_alike_more_list_items(
    a: Tokens,
    b: Tokens,
    pos: nat,
    acc1: Seq<Node<ListItemV>>,
    acc2: Seq<Node<ListItemV>>,
)
    requires
        same_kinds(a, b),
        same_list_items(acc1, acc2),
        pos <= a.len(),
    ensures
        list_items_alike(
            grammar::more_list_items(a, pos, acc1),
            grammar::more_list_items(b, pos, acc2),
        ),
    decreases a.len() - pos, 20nat,
{
    lemma_alike_tag(a, b, pos, TokenV::COMMA);
    if grammar::tag_at(a, pos, TokenV::COMMA) {
        lemma_alike_list_item(a, b, pos + 1);
        if let Ok((p1, x1)) = grammar::list_item(a, pos + 1) {
            let x2 = grammar::list_item(b, pos + 1).unwrap().1;
            if grammar::ahead(a, pos, p1) {
                lemma_list_items_shape_push(acc1, x1);
                lemma_list_items_shape_push(acc2, x2);
                lemma_alike_more_list_items(a, b, p1, acc1.push(x1), acc2.push(x2));
            }
        }
    }
}

/// The same of `dict_items`.
pub proof fn lemma_alike_dict_items(a: Tokens, b: Tokens, pos: nat)
    requires
        same_kinds(a, b),
        pos <= a.len(),
    ensures
        dict_items_alike(grammar::dict_items(a, pos), grammar::dict_items(b, pos)),
    decreases a.len() - pos, 20nat,
{
    lemma_same_at(a, b, pos);
    lemma_alike_dict_item(a, b, pos);
    if let Ok((p1, x1)) = grammar::dict_item(a, pos) {
        let x2 = grammar::dict_item(b, pos).unwrap().1;
        if grammar::ahead(a, pos, p1) {
            assert(dict_items_shape(seq![x1]) =~= dict_items_shape(seq![x2]));
            lemma_alike_more_dict_items(a, b, p1, seq![x1], seq![x2]);
        }
    } else {
        assert(dict_items_shape(Seq::<Node<DictItemV>>::empty()) =~= dict_items_shape(
            Seq::<Node<DictItemV>>::empty(),
        ));
    }
}

/// The same of `more_dict_items`.
pub proof fn lemma_alike_more_dict_items(
    a: Tokens,
    b: Tokens,
    pos: nat,
    acc1: Seq<Node<DictItemV>>,
    acc2: Seq<Node<DictItemV>>,
)
    requires
        same_kinds(a, b),
        same_dict_items(acc1, acc2),
        pos <= a.len(),
    ensures
        dict_items_alike(
            grammar::more_dict_items(a, pos, acc1),
            grammar::more_dict_items(b, pos, acc2),
        ),
    decreases a.len() - pos, 20nat,
{
    lemma_alike_tag(a, b, pos, TokenV::COMMA);
    if grammar::tag_at(a, pos, TokenV::COMMA) {
        lemma_alike_dict_item(a, b, pos + 1);
        if let Ok((p1, x1)) = grammar::dict_item(a, pos + 1) {
            let x2 = grammar::dict_item(b, pos + 1).unwrap().1;
            if grammar::ahead(a, pos, p1) {
                lemma_dict_items_shape_push(acc1, x1);
                lemma_dict_items_shape_push(acc2, x2);
                lemma_alike_more_dict_items(a, b, p1, acc1.push(x1), acc2.push(x2));
            }
        }
    }
}

} // verus!
