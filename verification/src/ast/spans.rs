use super::model::{
    AtomV, BlockV, BranchV, DictItemV, ExprV, ListItemV, PrimaryV, RangeV, TargetDictItemV,
    TargetListItemV, TargetV,
};
use crate::types::{Node, Span};
use vstd::prelude::*;

verus! {

/// Every pattern below a pattern node of span `span` lies inside the span
/// of the node that holds it.
pub open spec fn target_nested(span: Span, t: TargetV) -> bool
    decreases t,
{
    match t {
        TargetV::Id(_) => true,
        TargetV::TargetTuple(items) => target_list_items_nested(span, items),
        TargetV::TargetList(items) => target_list_items_nested(span, items),
        TargetV::TargetDict(items) => forall|i: int|
            #![trigger items[i]]
            0 <= i < items.len() ==> span.contains(items[i].span) && target_dict_item_nested(
                items[i].span,
                *items[i].data,
            ),
    }
}

/// Every node below the items of a tuple or list pattern under `span` lies inside the node that holds it.
pub open spec fn target_list_items_nested(span: Span, items: Seq<Node<TargetListItemV>>) -> bool
    decreases items,
{
    forall|i: int|
        #![trigger items[i]]
        0 <= i < items.len() ==> span.contains(items[i].span) && target_list_item_nested(
            items[i].span,
            *items[i].data,
        )
}

/// Every node below an item of a tuple or list pattern under `span` lies inside the node that holds it.
pub open spec fn target_list_item_nested(span: Span, item: TargetListItemV) -> bool
    decreases item,
{
    match item {
        TargetListItemV::Target(t) => target_nested(span, t),
        TargetListItemV::Spread(t) => span.contains(t.span) && target_nested(t.span, *t.data),
    }
}

/// Every node below an item of a dict pattern under `span` lies inside the node that holds it.
pub open spec fn target_dict_item_nested(span: Span, item: TargetDictItemV) -> bool
    decreases item,
{
    match item {
        TargetDictItemV::Shorthand(_) => true,
        TargetDictItemV::Spread(t) => span.contains(t.span) && target_nested(t.span, *t.data),
        TargetDictItemV::Pair { key, val } => span.contains(key.span) && span.contains(val.span)
            && target_nested(val.span, *val.data),
    }
}

/// Every node below an expression node of span `span` lies inside the span
/// of the node that holds it: operands, operators, items and patterns.
pub open spec fn expr_nested(span: Span, e: ExprV) -> bool
    decreases e,
{
    match e {
        ExprV::Assign(lhs, rhs) => span.contains(lhs.span) && target_nested(lhs.span, *lhs.data)
            && child_nested(span, rhs),
        ExprV::Branch(b) => branch_nested(span, b),
        ExprV::Function { args, block } => span.contains(args.span) && (forall|i: int|
            #![trigger args.data[i]]
            0 <= i < args.data.len() ==> args.span.contains(args.data[i].span) && target_nested(
                args.data[i].span,
                *args.data[i].data,
            )) && block_nested(span, block),
        ExprV::And(lhs, rhs) => child_nested(span, lhs) && child_nested(span, rhs),
        ExprV::Or(lhs, rhs) => child_nested(span, lhs) && child_nested(span, rhs),
        ExprV::Not(val) => child_nested(span, val),
        ExprV::CompareBound { l_val, l_op, val, r_op, r_val } => child_nested(span, l_val)
            && span.contains(l_op.span) && child_nested(span, val) && span.contains(r_op.span)
            && child_nested(span, r_val),
        ExprV::Compare(lhs, op, rhs) => child_nested(span, lhs) && span.contains(op.span)
            && child_nested(span, rhs),
        ExprV::Range(r) => range_nested(span, r),
        ExprV::Arith(lhs, op, rhs) => child_nested(span, lhs) && span.contains(op.span)
            && child_nested(span, rhs),
        ExprV::Unary(op, val) => span.contains(op.span) && child_nested(span, val),
        ExprV::Coefficient(lhs, rhs) => span.contains(lhs.span) && atom_nested(
            lhs.span,
            *lhs.data,
        ) && child_nested(span, rhs),
        ExprV::Die(val) => span.contains(val.span) && atom_nested(val.span, *val.data),
        ExprV::Primary(p) => primary_nested(span, p),
    }
}

/// The expression node `n` lies inside `span`, and so on below it.
pub open spec fn child_nested(span: Span, n: Node<ExprV>) -> bool
    decreases n,
{
    span.contains(n.span) && expr_nested(n.span, *n.data)
}

/// Every node below expressions under `span` lies inside the node that holds it.
pub open spec fn exprs_nested(span: Span, items: Seq<Node<ExprV>>) -> bool
    decreases items,
{
    forall|i: int| #![trigger items[i]] 0 <= i < items.len() ==> child_nested(span, items[i])
}

/// Every node below a block under `span` lies inside the node that holds it.
pub open spec fn block_nested(span: Span, block: Node<BlockV>) -> bool
    decreases block,
{
    span.contains(block.span) && exprs_nested(block.span, *block.data)
}

/// Every node below a range under `span` lies inside the node that holds it.
pub open spec fn range_nested(span: Span, r: RangeV) -> bool
    decreases r,
{
    match r {
        RangeV::Range { start, end } => child_nested(span, start) && child_nested(span, end),
        RangeV::RangeI { start, end } => child_nested(span, start) && child_nested(span, end),
        RangeV::RangeFrom { start } => child_nested(span, start),
        RangeV::RangeTo { end } => child_nested(span, end),
        RangeV::RangeToI { end } => child_nested(span, end),
        RangeV::RangeFull => true,
    }
}

/// Every node below a control-flow form under `span` lies inside the node that holds it.
pub open spec fn branch_nested(span: Span, b: BranchV) -> bool
    decreases b,
{
    match b {
        BranchV::If { val, block, else_block } => child_nested(span, val) && block_nested(
            span,
            block,
        ) && match else_block {
            Some(e) => block_nested(span, e),
            None => true,
        },
        BranchV::Match { val, block } => child_nested(span, val) && block_nested(span, block),
        BranchV::For { target, val, block } => span.contains(target.span) && target_nested(
            target.span,
            *target.data,
        ) && child_nested(span, val) && block_nested(span, block),
        BranchV::While { val, block } => child_nested(span, val) && block_nested(span, block),
        BranchV::Loop { block } => block_nested(span, block),
    }
}

/// Every node below a postfix chain under `span` lies inside the node that holds it.
pub open spec fn primary_nested(span: Span, p: PrimaryV) -> bool
    decreases p,
{
    match p {
        PrimaryV::Attribute(lhs, name) => span.contains(lhs.span) && primary_nested(
            lhs.span,
            *lhs.data,
        ) && span.contains(name.span),
        PrimaryV::Subscription(lhs, items) => span.contains(lhs.span) && primary_nested(
            lhs.span,
            *lhs.data,
        ) && exprs_nested(span, items),
        PrimaryV::Call(lhs, args) => span.contains(lhs.span) && primary_nested(
            lhs.span,
            *lhs.data,
        ) && span.contains(args.span) && list_items_nested(args.span, *args.data),
        PrimaryV::Atom(a) => atom_nested(span, a),
    }
}

/// Every node below an atom under `span` lies inside the node that holds it.
pub open spec fn atom_nested(span: Span, a: AtomV) -> bool
    decreases a,
{
    match a {
        AtomV::Paren(item) => span.contains(item.span) && list_item_nested(
            item.span,
            *item.data,
        ),
        AtomV::Tuple(items) => list_items_nested(span, items),
        AtomV::ListDisplay(items) => list_items_nested(span, items),
        AtomV::DictDisplay(items) => dict_items_nested(span, items),
        _ => true,
    }
}

/// Every node below an item under `span` lies inside the node that holds it.
pub open spec fn list_item_nested(span: Span, item: ListItemV) -> bool
    decreases item,
{
    match item {
        ListItemV::Expr(e) => expr_nested(span, e),
        ListItemV::Spread(e) => child_nested(span, e),
    }
}

/// Every node below items under `span` lies inside the node that holds it.
pub open spec fn list_items_nested(span: Span, items: Seq<Node<ListItemV>>) -> bool
    decreases items,
{
    forall|i: int|
        #![trigger items[i]]
        0 <= i < items.len() ==> span.contains(items[i].span) && list_item_nested(
            items[i].span,
            *items[i].data,
        )
}

/// Every node below a dict item under `span` lies inside the node that holds it.
pub open spec fn dict_item_nested(span: Span, item: DictItemV) -> bool
    decreases item,
{
    match item {
        DictItemV::Shorthand(_) => true,
        DictItemV::Spread(e) => child_nested(span, e),
        DictItemV::KeyVal { key, val } => span.contains(key.span) && child_nested(span, val),
    }
}

/// Every node below dict items under `span` lies inside the node that holds it.
pub open spec fn dict_items_nested(span: Span, items: Seq<Node<DictItemV>>) -> bool
    decreases items,
{
    forall|i: int|
        #![trigger items[i]]
        0 <= i < items.len() ==> span.contains(items[i].span) && dict_item_nested(
            items[i].span,
            *items[i].data,
        )
}

/// The whole tree under `n` is nested: each node's span contains the spans
/// of the nodes directly below it.
pub open spec fn nested(n: Node<ExprV>) -> bool {
    expr_nested(n.span, *n.data)
}

} // verus!
