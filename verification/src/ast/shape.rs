use super::model::{
    node, AtomV, BlockV, BranchV, DictItemV, ExprV, ListItemV, PrimaryV, RangeV, TargetDictItemV,
    TargetListItemV, TargetV,
};
use crate::types::{Node, Span};
use vstd::prelude::*;

verus! {

/// The span that stands in for every span of a shape.
pub open spec fn nowhere() -> Span {
    Span { start: 0, end: 0 }
}

/// A leaf node without its span.
pub open spec fn bare<T>(n: Node<T>) -> Node<T> {
    node(nowhere(), *n.data)
}

/// A pattern without its spans.
pub open spec fn target_shape(t: TargetV) -> TargetV
    decreases t,
{
    match t {
        TargetV::Id(x) => TargetV::Id(x),
        TargetV::TargetTuple(items) => TargetV::TargetTuple(target_list_items_shape(items)),
        TargetV::TargetList(items) => TargetV::TargetList(target_list_items_shape(items)),
        TargetV::TargetDict(items) => TargetV::TargetDict(target_dict_items_shape(items)),
    }
}

/// A pattern node without its spans.
pub open spec fn target_node_shape(n: Node<TargetV>) -> Node<TargetV>
    decreases n,
{
    node(nowhere(), target_shape(*n.data))
}

/// Patterns without their spans.
pub open spec fn targets_shape(items: Seq<Node<TargetV>>) -> Seq<Node<TargetV>>
    decreases items,
{
    Seq::new(
        items.len(),
        |i: int|
            if 0 <= i < items.len() {
                target_node_shape(items[i])
            } else {
                arbitrary()
            },
    )
}

/// An item of a tuple or list pattern without its spans.
pub open spec fn target_list_item_shape(item: TargetListItemV) -> TargetListItemV
    decreases item,
{
    match item {
        TargetListItemV::Target(t) => TargetListItemV::Target(target_shape(t)),
        TargetListItemV::Spread(t) => TargetListItemV::Spread(target_node_shape(t)),
    }
}

/// The items of a tuple or list pattern without their spans.
pub open spec fn target_list_items_shape(items: Seq<Node<TargetListItemV>>) -> Seq<
    Node<TargetListItemV>,
>
    decreases items,
{
    Seq::new(
        items.len(),
        |i: int|
            if 0 <= i < items.len() {
                node(nowhere(), target_list_item_shape(*items[i].data))
            } else {
                arbitrary()
            },
    )
}

/// An item of a dict pattern without its spans.
pub open spec fn target_dict_item_shape(item: TargetDictItemV) -> TargetDictItemV
    decreases item,
{
    match item {
        TargetDictItemV::Shorthand(k) => TargetDictItemV::Shorthand(k),
        TargetDictItemV::Spread(t) => TargetDictItemV::Spread(target_node_shape(t)),
        TargetDictItemV::Pair { key, val } => TargetDictItemV::Pair {
            key: bare(key),
            val: target_node_shape(val),
        },
    }
}

/// The items of a dict pattern without their spans.
pub open spec fn target_dict_items_shape(items: Seq<Node<TargetDictItemV>>) -> Seq<
    Node<TargetDictItemV>,
>
    decreases items,
{
    Seq::new(
        items.len(),
        |i: int|
            if 0 <= i < items.len() {
                node(nowhere(), target_dict_item_shape(*items[i].data))
            } else {
                arbitrary()
            },
    )
}

/// An expression without its spans: what two trees have in common when
/// they are equal but for where they were read.
pub open spec fn expr_shape(e: ExprV) -> ExprV
    decreases e,
{
    match e {
        ExprV::Assign(lhs, rhs) => ExprV::Assign(target_node_shape(lhs), expr_node_shape(rhs)),
        ExprV::Branch(b) => ExprV::Branch(branch_shape(b)),
        ExprV::Function { args, block } => ExprV::Function {
            args: node(nowhere(), targets_shape(*args.data)),
            block: block_shape(block),
        },
        ExprV::And(lhs, rhs) => ExprV::And(expr_node_shape(lhs), expr_node_shape(rhs)),
        ExprV::Or(lhs, rhs) => ExprV::Or(expr_node_shape(lhs), expr_node_shape(rhs)),
        ExprV::Not(val) => ExprV::Not(expr_node_shape(val)),
        ExprV::CompareBound { l_val, l_op, val, r_op, r_val } => ExprV::CompareBound {
            l_val: expr_node_shape(l_val),
            l_op: bare(l_op),
            val: expr_node_shape(val),
            r_op: bare(r_op),
            r_val: expr_node_shape(r_val),
        },
        ExprV::Compare(lhs, op, rhs) => ExprV::Compare(
            expr_node_shape(lhs),
            bare(op),
            expr_node_shape(rhs),
        ),
        ExprV::Range(r) => ExprV::Range(range_shape(r)),
        ExprV::Arith(lhs, op, rhs) => ExprV::Arith(
            expr_node_shape(lhs),
            bare(op),
            expr_node_shape(rhs),
        ),
        ExprV::Unary(op, val) => ExprV::Unary(bare(op), expr_node_shape(val)),
        ExprV::Coefficient(lhs, rhs) => ExprV::Coefficient(
            atom_node_shape(lhs),
            expr_node_shape(rhs),
        ),
        ExprV::Die(val) => ExprV::Die(atom_node_shape(val)),
        ExprV::Primary(p) => ExprV::Primary(primary_shape(p)),
    }
}

/// An expression node without its spans.
pub open spec fn expr_node_shape(n: Node<ExprV>) -> Node<ExprV>
    decreases n,
{
    node(nowhere(), expr_shape(*n.data))
}

/// Expressions without their spans.
pub open spec fn exprs_shape(items: Seq<Node<ExprV>>) -> Seq<Node<ExprV>>
    decreases items,
{
    Seq::new(
        items.len(),
        |i: int|
            if 0 <= i < items.len() {
                expr_node_shape(items[i])
            } else {
                arbitrary()
            },
    )
}

/// A block without its spans.
pub open spec fn block_shape(block: Node<BlockV>) -> Node<BlockV>
    decreases block,
{
    node(nowhere(), exprs_shape(*block.data))
}

/// A range without its spans.
pub open spec fn range_shape(r: RangeV) -> RangeV
    decreases r,
{
    match r {
        RangeV::Range { start, end } => RangeV::Range {
            start: expr_node_shape(start),
            end: expr_node_shape(end),
        },
        RangeV::RangeI { start, end } => RangeV::RangeI {
            start: expr_node_shape(start),
            end: expr_node_shape(end),
        },
        RangeV::RangeFrom { start } => RangeV::RangeFrom { start: expr_node_shape(start) },
        RangeV::RangeTo { end } => RangeV::RangeTo { end: expr_node_shape(end) },
        RangeV::RangeToI { end } => RangeV::RangeToI { end: expr_node_shape(end) },
        RangeV::RangeFull => RangeV::RangeFull,
    }
}

/// A control-flow form without its spans.
pub open spec fn branch_shape(b: BranchV) -> BranchV
    decreases b,
{
    match b {
        BranchV::If { val, block, else_block } => BranchV::If {
            val: expr_node_shape(val),
            block: block_shape(block),
            else_block: match else_block {
                Some(e) => Some(block_shape(e)),
                None => None,
            },
        },
        BranchV::Match { val, block } => BranchV::Match {
            val: expr_node_shape(val),
            block: block_shape(block),
        },
        BranchV::For { target, val, block } => BranchV::For {
            target: target_node_shape(target),
            val: expr_node_shape(val),
            block: block_shape(block),
        },
        BranchV::While { val, block } => BranchV::While {
            val: expr_node_shape(val),
            block: block_shape(block),
        },
        BranchV::Loop { block } => BranchV::Loop { block: block_shape(block) },
    }
}

/// A postfix chain without its spans.
pub open spec fn primary_shape(p: PrimaryV) -> PrimaryV
    decreases p,
{
    match p {
        PrimaryV::Attribute(lhs, name) => PrimaryV::Attribute(primary_node_shape(lhs), bare(name)),
        PrimaryV::Subscription(lhs, items) => PrimaryV::Subscription(
            primary_node_shape(lhs),
            exprs_shape(items),
        ),
        PrimaryV::Call(lhs, args) => PrimaryV::Call(
            primary_node_shape(lhs),
            node(nowhere(), list_items_shape(*args.data)),
        ),
        PrimaryV::Atom(a) => PrimaryV::Atom(atom_shape(a)),
    }
}

/// A postfix chain node without its spans.
pub open spec fn primary_node_shape(n: Node<PrimaryV>) -> Node<PrimaryV>
    decreases n,
{
    node(nowhere(), primary_shape(*n.data))
}

/// An atom without its spans.
pub open spec fn atom_shape(a: AtomV) -> AtomV
    decreases a,
{
    match a {
        AtomV::Paren(item) => AtomV::Paren(list_item_node_shape(item)),
        AtomV::Tuple(items) => AtomV::Tuple(list_items_shape(items)),
        AtomV::ListDisplay(items) => AtomV::ListDisplay(list_items_shape(items)),
        AtomV::DictDisplay(items) => AtomV::DictDisplay(dict_items_shape(items)),
        _ => a,
    }
}

/// An atom node without its spans.
pub open spec fn atom_node_shape(n: Node<AtomV>) -> Node<AtomV>
    decreases n,
{
    node(nowhere(), atom_shape(*n.data))
}

/// An item without its spans.
pub open spec fn list_item_shape(item: ListItemV) -> ListItemV
    decreases item,
{
    match item {
        ListItemV::Expr(e) => ListItemV::Expr(expr_shape(e)),
        ListItemV::Spread(e) => ListItemV::Spread(expr_node_shape(e)),
    }
}

/// An item node without its spans.
pub open spec fn list_item_node_shape(n: Node<ListItemV>) -> Node<ListItemV>
    decreases n,
{
    node(nowhere(), list_item_shape(*n.data))
}

/// Items without their spans.
pub open spec fn list_items_shape(items: Seq<Node<ListItemV>>) -> Seq<Node<ListItemV>>
    decreases items,
{
    Seq::new(
        items.len(),
        |i: int|
            if 0 <= i < items.len() {
                list_item_node_shape(items[i])
            } else {
                arbitrary()
            },
    )
}

/// A dict item without its spans.
pub open spec fn dict_item_shape(item: DictItemV) -> DictItemV
    decreases item,
{
    match item {
        DictItemV::Shorthand(k) => DictItemV::Shorthand(k),
        DictItemV::Spread(e) => DictItemV::Spread(expr_node_shape(e)),
        DictItemV::KeyVal { key, val } => DictItemV::KeyVal {
            key: bare(key),
            val: expr_node_shape(val),
        },
    }
}

/// A dict item node without its spans.
pub open spec fn dict_item_node_shape(n: Node<DictItemV>) -> Node<DictItemV>
    decreases n,
{
    node(nowhere(), dict_item_shape(*n.data))
}

/// Dict items without their spans.
pub open spec fn dict_items_shape(items: Seq<Node<DictItemV>>) -> Seq<Node<DictItemV>>
    decreases items,
{
    Seq::new(
        items.len(),
        |i: int|
            if 0 <= i < items.len() {
                dict_item_node_shape(items[i])
            } else {
                arbitrary()
            },
    )
}

/// The tree under `n` without its spans.
pub open spec fn shape_of(n: Node<ExprV>) -> Node<ExprV> {
    expr_node_shape(n)
}

} // verus!
