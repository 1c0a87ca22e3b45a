use super::atom::{Atom, DictItem, ListItem};
use super::expr::{ArgsDef, Branch, Expr, ExprBlock, ExprBlockEnclosed, ExprBlockTop, Range};
use super::model::{
    dict_item_nodes_view, expr_nodes_view, list_item_nodes_view, target_dict_item_nodes_view,
    target_list_item_nodes_view, target_nodes_view,
};
use super::primary::{Args, Primary};
use super::target::{Target, TargetDictItem, TargetList, TargetListItem};
use crate::types::Node;
use vstd::prelude::*;

verus! {

fn copy_name(n: &Node<String>) -> (r: Node<String>)
    ensures
        r@ == n@,
{
    Node::new(n.span, (*n.data).clone())
}

/// A copy of a pattern: the same model in fresh storage.
pub fn copy_target(t: &Target) -> (r: Target)
    ensures
        r@ == t@,
    decreases t,
{
    match t {
        Target::Id(x) => Target::Id(x.clone()),
        Target::TargetTuple(items) => Target::TargetTuple(copy_target_list_items(items)),
        Target::TargetList(items) => Target::TargetList(copy_target_list_items(items)),
        Target::TargetDict(items) => Target::TargetDict(copy_target_dict_items(items)),
    }
}

fn copy_target_node(n: &Node<Target>) -> (r: Node<Target>)
    ensures
        r@ == n@,
    decreases n,
{
    Node::new(n.span, copy_target(&n.data))
}

fn copy_target_list_item(item: &TargetListItem) -> (r: TargetListItem)
    ensures
        r@ == item@,
    decreases item,
{
    match item {
        TargetListItem::Target(t) => TargetListItem::Target(copy_target(t)),
        TargetListItem::Spread(t) => TargetListItem::Spread(copy_target_node(t)),
    }
}

fn copy_target_dict_item(item: &TargetDictItem) -> (r: TargetDictItem)
    ensures
        r@ == item@,
    decreases item,
{
    match item {
        TargetDictItem::Shorthand(k) => TargetDictItem::Shorthand(k.clone()),
        TargetDictItem::Spread(t) => TargetDictItem::Spread(copy_target_node(t)),
        TargetDictItem::Pair { key, val } => TargetDictItem::Pair {
            key: copy_name(key),
            val: copy_target_node(val),
        },
    }
}

fn copy_targets(items: &Vec<Node<Target>>) -> (r: Vec<Node<Target>>)
    ensures
        target_nodes_view(r@) == target_nodes_view(items@),
    decreases items,
{
    let mut out: Vec<Node<Target>> = Vec::new();
    let mut i: usize = 0;
    while i < items.len()
        invariant
            i <= items@.len(),
            out@.len() == i,
            forall|k: int| 0 <= k < i ==> (#[trigger] out@[k])@ == items@[k]@,
        decreases items@.len() - i,
    {
        let next = Node::new(items[i].span, copy_target(&items[i].data));
        out.push(next);
        i += 1;
    }
    proof {
        assert(target_nodes_view(out@) =~= target_nodes_view(items@)) by {
            assert forall|k: int| 0 <= k < out@.len() implies target_nodes_view(out@)[k] == target_nodes_view(
                items@,
            )[k] by {
                assert(out@[k]@ == items@[k]@);
            }
        }
    }
    out
}

fn copy_target_list_items(items: &Vec<Node<TargetListItem>>) -> (r: Vec<Node<TargetListItem>>)
    ensures
        target_list_item_nodes_view(r@) == target_list_item_nodes_view(items@),
    decreases items,
{
    let mut out: Vec<Node<TargetListItem>> = Vec::new();
    let mut i: usize = 0;
    while i < items.len()
        invariant
            i <= items@.len(),
            out@.len() == i,
            forall|k: int| 0 <= k < i ==> (#[trigger] out@[k])@ == items@[k]@,
        decreases items@.len() - i,
    {
        let next = Node::new(items[i].span, copy_target_list_item(&items[i].data));
        out.push(next);
        i += 1;
    }
    proof {
        assert(target_list_item_nodes_view(out@) =~= target_list_item_nodes_view(items@)) by {
            assert forall|k: int| 0 <= k < out@.len() implies target_list_item_nodes_view(out@)[k] == target_list_item_nodes_view(
                items@,
            )[k] by {
                assert(out@[k]@ == items@[k]@);
            }
        }
    }
    out
}

fn copy_target_dict_items(items: &Vec<Node<TargetDictItem>>) -> (r: Vec<Node<TargetDictItem>>)
    ensures
        target_dict_item_nodes_view(r@) == target_dict_item_nodes_view(items@),
    decreases items,
{
    let mut out: Vec<Node<TargetDictItem>> = Vec::new();
    let mut i: usize = 0;
    while i < items.len()
        invariant
            i <= items@.len(),
            out@.len() == i,
            forall|k: int| 0 <= k < i ==> (#[trigger] out@[k])@ == items@[k]@,
        decreases items@.len() - i,
    {
        let next = Node::new(items[i].span, copy_target_dict_item(&items[i].data));
        out.push(next);
        i += 1;
    }
    proof {
        assert(target_dict_item_nodes_view(out@) =~= target_dict_item_nodes_view(items@)) by {
            assert forall|k: int| 0 <= k < out@.len() implies target_dict_item_nodes_view(out@)[k] == target_dict_item_nodes_view(
                items@,
            )[k] by {
                assert(out@[k]@ == items@[k]@);
            }
        }
    }
    out
}

/// A copy of an expression: the same model in fresh storage.
pub fn copy_expr(e: &Expr) -> (r: Expr)
    ensures
        r@ == e@,
    decreases e,
{
    match e {
        Expr::Assign(lhs, rhs) => Expr::Assign(copy_target_node(lhs), copy_expr_node(rhs)),
        Expr::Branch(b) => Expr::Branch(copy_branch(b)),
        Expr::Function { args, block } => Expr::Function {
            args: Node::new(args.span, ArgsDef(copy_targets(&args.data.0))),
            block: copy_block(block),
        },
        Expr::And(lhs, rhs) => Expr::And(copy_expr_node(lhs), copy_expr_node(rhs)),
        Expr::Or(lhs, rhs) => Expr::Or(copy_expr_node(lhs), copy_expr_node(rhs)),
        Expr::Not(val) => Expr::Not(copy_expr_node(val)),
        Expr::CompareBound { l_val, l_op, val, r_op, r_val } => Expr::CompareBound {
            l_val: copy_expr_node(l_val),
            l_op: Node::new(l_op.span, *l_op.data),
            val: copy_expr_node(val),
            r_op: Node::new(r_op.span, *r_op.data),
            r_val: copy_expr_node(r_val),
        },
        Expr::Compare(lhs, op, rhs) => Expr::Compare(
            copy_expr_node(lhs),
            Node::new(op.span, *op.data),
            copy_expr_node(rhs),
        ),
        Expr::Range(r) => Expr::Range(copy_range(r)),
        Expr::Arith(lhs, op, rhs) => Expr::Arith(
            copy_expr_node(lhs),
            Node::new(op.span, *op.data),
            copy_expr_node(rhs),
        ),
        Expr::Unary(op, val) => Expr::Unary(Node::new(op.span, *op.data), copy_expr_node(val)),
        Expr::Coefficient(lhs, rhs) => Expr::Coefficient(
            copy_atom_node(lhs),
            copy_expr_node(rhs),
        ),
        Expr::Die(val) => Expr::Die(copy_atom_node(val)),
        Expr::Primary(p) => Expr::Primary(copy_primary(p)),
    }
}

fn copy_expr_node(n: &Node<Expr>) -> (r: Node<Expr>)
    ensures
        r@ == n@,
    decreases n,
{
    Node::new(n.span, copy_expr(&n.data))
}

fn copy_block(n: &Node<ExprBlockEnclosed>) -> (r: Node<ExprBlockEnclosed>)
    ensures
        r@ == n@,
    decreases n,
{
    Node::new(n.span, ExprBlockEnclosed(copy_exprs(&n.data.0)))
}

fn copy_range(r: &Range) -> (c: Range)
    ensures
        c@ == r@,
    decreases r,
{
    match r {
        Range::Range { start, end } => Range::Range {
            start: copy_expr_node(start),
            end: copy_expr_node(end),
        },
        Range::RangeI { start, end } => Range::RangeI {
            start: copy_expr_node(start),
            end: copy_expr_node(end),
        },
        Range::RangeFrom { start } => Range::RangeFrom { start: copy_expr_node(start) },
        Range::RangeTo { end } => Range::RangeTo { end: copy_expr_node(end) },
        Range::RangeToI { end } => Range::RangeToI { end: copy_expr_node(end) },
        Range::RangeFull => Range::RangeFull,
    }
}

fn copy_branch(b: &Branch) -> (r: Branch)
    ensures
        r@ == b@,
    decreases b,
{
    match b {
        Branch::If { val, block, else_block } => Branch::If {
            val: copy_expr_node(val),
            block: copy_block(block),
            else_block: match else_block {
                Some(e) => Some(copy_block(e)),
                None => None,
            },
        },
        Branch::Match { val, block } => Branch::Match {
            val: copy_expr_node(val),
            block: copy_block(block),
        },
        Branch::For { target, val, block } => Branch::For {
            target: copy_target_node(target),
            val: copy_expr_node(val),
            block: copy_block(block),
        },
        Branch::While { val, block } => Branch::While {
            val: copy_expr_node(val),
            block: copy_block(block),
        },
        Branch::Loop { block } => Branch::Loop { block: copy_block(block) },
    }
}

/// A copy of a postfix chain: the same model in fresh storage.
pub fn copy_primary(p: &Primary) -> (r: Primary)
    ensures
        r@ == p@,
    decreases p,
{
    match p {
        Primary::Attribute(lhs, name) => Primary::Attribute(
            copy_primary_node(lhs),
            copy_name(name),
        ),
        Primary::Subscription(lhs, items) => Primary::Subscription(
            copy_primary_node(lhs),
            copy_exprs(items),
        ),
        Primary::Call(lhs, args) => Primary::Call(
            copy_primary_node(lhs),
            Node::new(args.span, Args(copy_list_items(&args.data.0))),
        ),
        Primary::Atom(a) => Primary::Atom(copy_atom(a)),
    }
}

fn copy_primary_node(n: &Node<Primary>) -> (r: Node<Primary>)
    ensures
        r@ == n@,
    decreases n,
{
    Node::new(n.span, copy_primary(&n.data))
}

/// A copy of an atom: the same model in fresh storage.
pub fn copy_atom(a: &Atom) -> (r: Atom)
    ensures
        r@ == a@,
    decreases a,
{
    match a {
        Atom::Id(x) => Atom::Id(x.clone()),
        Atom::Integer(n) => Atom::Integer(*n),
        Atom::String(x) => Atom::String(x.clone()),
        Atom::Boolean(b) => Atom::Boolean(*b),
        Atom::Null => Atom::Null,
        Atom::Paren(item) => Atom::Paren(Node::new(item.span, copy_list_item(&item.data))),
        Atom::Tuple(items) => Atom::Tuple(copy_list_items(items)),
        Atom::ListDisplay(items) => Atom::ListDisplay(copy_list_items(items)),
        Atom::DictDisplay(items) => Atom::DictDisplay(copy_dict_items(items)),
    }
}

fn copy_atom_node(n: &Node<Atom>) -> (r: Node<Atom>)
    ensures
        r@ == n@,
    decreases n,
{
    Node::new(n.span, copy_atom(&n.data))
}

fn copy_list_item(item: &ListItem) -> (r: ListItem)
    ensures
        r@ == item@,
    decreases item,
{
    match item {
        ListItem::Expr(e) => ListItem::Expr(copy_expr(e)),
        ListItem::Spread(e) => ListItem::Spread(copy_expr_node(e)),
    }
}

fn copy_dict_item(item: &DictItem) -> (r: DictItem)
    ensures
        r@ == item@,
    decreases item,
{
    match item {
        DictItem::Shorthand(k) => DictItem::Shorthand(k.clone()),
        DictItem::Spread(e) => DictItem::Spread(copy_expr_node(e)),
        DictItem::KeyVal { key, val } => DictItem::KeyVal {
            key: copy_name(key),
            val: copy_expr_node(val),
        },
    }
}

fn copy_exprs(items: &Vec<Node<Expr>>) -> (r: Vec<Node<Expr>>)
    ensures
        expr_nodes_view(r@) == expr_nodes_view(items@),
    decreases items,
{
    let mut out: Vec<Node<Expr>> = Vec::new();
    let mut i: usize = 0;
    while i < items.len()
        invariant
            i <= items@.len(),
            out@.len() == i,
            forall|k: int| 0 <= k < i ==> (#[trigger] out@[k])@ == items@[k]@,
        decreases items@.len() - i,
    {
        let next = Node::new(items[i].span, copy_expr(&items[i].data));
        out.push(next);
        i += 1;
    }
    proof {
        assert(expr_nodes_view(out@) =~= expr_nodes_view(items@)) by {
            assert forall|k: int| 0 <= k < out@.len() implies expr_nodes_view(out@)[k] == expr_nodes_view(
                items@,
            )[k] by {
                assert(out@[k]@ == items@[k]@);
            }
        }
    }
    out
}

fn copy_list_items(items: &Vec<Node<ListItem>>) -> (r: Vec<Node<ListItem>>)
    ensures
        list_item_nodes_view(r@) == list_item_nodes_view(items@),
    decreases items,
{
    let mut out: Vec<Node<ListItem>> = Vec::new();
    let mut i: usize = 0;
    while i < items.len()
        invariant
            i <= items@.len(),
            out@.len() == i,
            forall|k: int| 0 <= k < i ==> (#[trigger] out@[k])@ == items@[k]@,
        decreases items@.len() - i,
    {
        let next = Node::new(items[i].span, copy_list_item(&items[i].data));
        out.push(next);
        i += 1;
    }
    proof {
        assert(list_item_nodes_view(out@) =~= list_item_nodes_view(items@)) by {
            assert forall|k: int| 0 <= k < out@.len() implies list_item_nodes_view(out@)[k] == list_item_nodes_view(
                items@,
            )[k] by {
                assert(out@[k]@ == items@[k]@);
            }
        }
    }
    out
}

fn copy_dict_items(items: &Vec<Node<DictItem>>) -> (r: Vec<Node<DictItem>>)
    ensures
        dict_item_nodes_view(r@) == dict_item_nodes_view(items@),
    decreases items,
{
    let mut out: Vec<Node<DictItem>> = Vec::new();
    let mut i: usize = 0;
    while i < items.len()
        invariant
            i <= items@.len(),
            out@.len() == i,
            forall|k: int| 0 <= k < i ==> (#[trigger] out@[k])@ == items@[k]@,
        decreases items@.len() - i,
    {
        let next = Node::new(items[i].span, copy_dict_item(&items[i].data));
        out.push(next);
        i += 1;
    }
    proof {
        assert(dict_item_nodes_view(out@) =~= dict_item_nodes_view(items@)) by {
            assert forall|k: int| 0 <= k < out@.len() implies dict_item_nodes_view(out@)[k] == dict_item_nodes_view(
                items@,
            )[k] by {
                assert(out@[k]@ == items@[k]@);
            }
        }
    }
    out
}

impl Clone for Expr {
    fn clone(&self) -> (r: Self)
        ensures
            r@ == self@,
    {
        copy_expr(self)
    }
}

impl Clone for Primary {
    fn clone(&self) -> (r: Self)
        ensures
            r@ == self@,
    {
        copy_primary(self)
    }
}

impl Clone for Atom {
    fn clone(&self) -> (r: Self)
        ensures
            r@ == self@,
    {
        copy_atom(self)
    }
}

impl Clone for ListItem {
    fn clone(&self) -> (r: Self)
        ensures
            r@ == self@,
    {
        copy_list_item(self)
    }
}

impl Clone for DictItem {
    fn clone(&self) -> (r: Self)
        ensures
            r@ == self@,
    {
        copy_dict_item(self)
    }
}

impl Clone for Range {
    fn clone(&self) -> (r: Self)
        ensures
            r@ == self@,
    {
        copy_range(self)
    }
}

impl Clone for Branch {
    fn clone(&self) -> (r: Self)
        ensures
            r@ == self@,
    {
        copy_branch(self)
    }
}

impl Clone for Target {
    fn clone(&self) -> (r: Self)
        ensures
            r@ == self@,
    {
        copy_target(self)
    }
}

impl Clone for TargetListItem {
    fn clone(&self) -> (r: Self)
        ensures
            r@ == self@,
    {
        copy_target_list_item(self)
    }
}

impl Clone for TargetDictItem {
    fn clone(&self) -> (r: Self)
        ensures
            r@ == self@,
    {
        copy_target_dict_item(self)
    }
}

impl Clone for Args {
    fn clone(&self) -> (r: Self)
        ensures
            r@ == self@,
    {
        Args(copy_list_items(&self.0))
    }
}

impl Clone for ArgsDef {
    fn clone(&self) -> (r: Self)
        ensures
            r@ == self@,
    {
        ArgsDef(copy_targets(&self.0))
    }
}

impl Clone for ExprBlock {
    fn clone(&self) -> (r: Self)
        ensures
            r@ == self@,
    {
        ExprBlock(copy_exprs(&self.0))
    }
}

impl Clone for ExprBlockTop {
    fn clone(&self) -> (r: Self)
        ensures
            r@ == self@,
    {
        ExprBlockTop(copy_exprs(&self.0))
    }
}

impl Clone for ExprBlockEnclosed {
    fn clone(&self) -> (r: Self)
        ensures
            r@ == self@,
    {
        ExprBlockEnclosed(copy_exprs(&self.0))
    }
}

impl Clone for TargetList {
    fn clone(&self) -> (r: Self)
        ensures
            r@ == self@,
    {
        match self {
            TargetList::Target(t) => TargetList::Target(copy_target(t)),
            TargetList::List(items) => TargetList::List(copy_targets(items)),
        }
    }
}

} // verus!
