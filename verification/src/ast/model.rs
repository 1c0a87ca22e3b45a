use super::atom::{Atom, DictItem, ListItem};
use super::expr::{ArgsDef, Branch, Expr, ExprBlock, ExprBlockEnclosed, ExprBlockTop, Range};
use super::op::{OpArith, OpEqs};
use super::primary::{Args, Primary};
use super::target::{Target, TargetDictItem, TargetList, TargetListItem};
use crate::types::Node;
use vstd::prelude::*;

verus! {

/// The model of an [`Atom`].
pub enum AtomV {
    Id(Seq<char>),
    Integer(i32),
    String(Seq<char>),
    Boolean(bool),
    Null,
    Paren(Node<ListItemV>),
    Tuple(Seq<Node<ListItemV>>),
    ListDisplay(Seq<Node<ListItemV>>),
    DictDisplay(Seq<Node<DictItemV>>),
}

/// The model of a [`ListItem`].
pub enum ListItemV {
    Expr(ExprV),
    Spread(Node<ExprV>),
}

/// The model of a [`DictItem`].
pub enum DictItemV {
    Shorthand(Seq<char>),
    Spread(Node<ExprV>),
    KeyVal { key: Node<Seq<char>>, val: Node<ExprV> },
}

/// The model of a [`Primary`].
pub enum PrimaryV {
    Attribute(Node<PrimaryV>, Node<Seq<char>>),
    Subscription(Node<PrimaryV>, Seq<Node<ExprV>>),
    Call(Node<PrimaryV>, Node<Seq<Node<ListItemV>>>),
    Atom(AtomV),
}

/// The model of a [`Target`].
pub enum TargetV {
    Id(Seq<char>),
    TargetTuple(Seq<Node<TargetListItemV>>),
    TargetList(Seq<Node<TargetListItemV>>),
    TargetDict(Seq<Node<TargetDictItemV>>),
}

/// The model of a [`TargetListItem`].
pub enum TargetListItemV {
    Target(TargetV),
    Spread(Node<TargetV>),
}

/// The model of a [`TargetDictItem`].
pub enum TargetDictItemV {
    Shorthand(Seq<char>),
    Spread(Node<TargetV>),
    Pair { key: Node<Seq<char>>, val: Node<TargetV> },
}

/// The model of a [`TargetList`].
pub enum TargetListV {
    Target(TargetV),
    List(Seq<Node<TargetV>>),
}

/// The model of a [`Range`].
pub enum RangeV {
    Range { start: Node<ExprV>, end: Node<ExprV> },
    RangeI { start: Node<ExprV>, end: Node<ExprV> },
    RangeFrom { start: Node<ExprV> },
    RangeTo { end: Node<ExprV> },
    RangeToI { end: Node<ExprV> },
    RangeFull,
}

/// A block in the model: its expressions in order.
pub type BlockV = Seq<Node<ExprV>>;

/// The model of a [`Branch`].
pub enum BranchV {
    If { val: Node<ExprV>, block: Node<BlockV>, else_block: Option<Node<BlockV>> },
    Match { val: Node<ExprV>, block: Node<BlockV> },
    For { target: Node<TargetV>, val: Node<ExprV>, block: Node<BlockV> },
    While { val: Node<ExprV>, block: Node<BlockV> },
    Loop { block: Node<BlockV> },
}

/// The model of an [`Expr`].
pub enum ExprV {
    Assign(Node<TargetV>, Node<ExprV>),
    Branch(BranchV),
    Function { args: Node<Seq<Node<TargetV>>>, block: Node<BlockV> },
    And(Node<ExprV>, Node<ExprV>),
    Or(Node<ExprV>, Node<ExprV>),
    Not(Node<ExprV>),
    CompareBound {
        l_val: Node<ExprV>,
        l_op: Node<OpEqs>,
        val: Node<ExprV>,
        r_op: Node<OpEqs>,
        r_val: Node<ExprV>,
    },
    Compare(Node<ExprV>, Node<OpEqs>, Node<ExprV>),
    Range(RangeV),
    Arith(Node<ExprV>, Node<OpArith>, Node<ExprV>),
    Unary(Node<OpArith>, Node<ExprV>),
    Coefficient(Node<AtomV>, Node<ExprV>),
    Die(Node<AtomV>),
    Primary(PrimaryV),
}

/// A node in the model, from a span and a value.
pub open spec fn node<T>(span: crate::types::Span, data: T) -> Node<T> {
    Node { span, data: Box::new(data) }
}

/// The model of a name node.
pub open spec fn text_node_view(n: Node<String>) -> Node<Seq<char>> {
    node(n.span, n.data@)
}

/// The model of a pattern.
pub open spec fn target_view(t: Target) -> TargetV
    decreases t,
{
    match t {
        Target::Id(x) => TargetV::Id(x@),
        Target::TargetTuple(v) => TargetV::TargetTuple(target_list_item_nodes_view(v@)),
        Target::TargetList(v) => TargetV::TargetList(target_list_item_nodes_view(v@)),
        Target::TargetDict(v) => TargetV::TargetDict(target_dict_item_nodes_view(v@)),
    }
}

/// The model of a pattern node.
pub open spec fn target_node_view(n: Node<Target>) -> Node<TargetV>
    decreases n,
{
    node(n.span, target_view(*n.data))
}

/// The models of a sequence of patterns.
pub open spec fn target_nodes_view(s: Seq<Node<Target>>) -> Seq<Node<TargetV>>
    decreases s,
{
    Seq::new(
        s.len(),
        |i: int|
            if 0 <= i < s.len() {
                target_node_view(s[i])
            } else {
                arbitrary()
            },
    )
}

/// The model of an item of a tuple or list pattern.
pub open spec fn target_list_item_view(t: TargetListItem) -> TargetListItemV
    decreases t,
{
    match t {
        TargetListItem::Target(x) => TargetListItemV::Target(target_view(x)),
        TargetListItem::Spread(x) => TargetListItemV::Spread(target_node_view(x)),
    }
}

/// The models of the items of a tuple or list pattern.
pub open spec fn target_list_item_nodes_view(s: Seq<Node<TargetListItem>>) -> Seq<
    Node<TargetListItemV>,
>
    decreases s,
{
    Seq::new(
        s.len(),
        |i: int|
            if 0 <= i < s.len() {
                node(s[i].span, target_list_item_view(*s[i].data))
            } else {
                arbitrary()
            },
    )
}

/// The model of an item of a dict pattern.
pub open spec fn target_dict_item_view(t: TargetDictItem) -> TargetDictItemV
    decreases t,
{
    match t {
        TargetDictItem::Shorthand(x) => TargetDictItemV::Shorthand(x@),
        TargetDictItem::Spread(x) => TargetDictItemV::Spread(target_node_view(x)),
        TargetDictItem::Pair { key, val } => TargetDictItemV::Pair {
            key: text_node_view(key),
            val: target_node_view(val),
        },
    }
}

/// The models of the items of a dict pattern.
pub open spec fn target_dict_item_nodes_view(s: Seq<Node<TargetDictItem>>) -> Seq<
    Node<TargetDictItemV>,
>
    decreases s,
{
    Seq::new(
        s.len(),
        |i: int|
            if 0 <= i < s.len() {
                node(s[i].span, target_dict_item_view(*s[i].data))
            } else {
                arbitrary()
            },
    )
}

/// The model of an expression.
pub open spec fn expr_view(e: Expr) -> ExprV
    decreases e,
{
    match e {
        Expr::Assign(lhs, rhs) => ExprV::Assign(target_node_view(lhs), expr_node_view(rhs)),
        Expr::Branch(b) => ExprV::Branch(branch_view(b)),
        Expr::Function { args, block } => ExprV::Function {
            args: node(args.span, target_nodes_view(args.data.0@)),
            block: block_node_view(block),
        },
        Expr::And(lhs, rhs) => ExprV::And(expr_node_view(lhs), expr_node_view(rhs)),
        Expr::Or(lhs, rhs) => ExprV::Or(expr_node_view(lhs), expr_node_view(rhs)),
        Expr::Not(val) => ExprV::Not(expr_node_view(val)),
        Expr::CompareBound { l_val, l_op, val, r_op, r_val } => ExprV::CompareBound {
            l_val: expr_node_view(l_val),
            l_op,
            val: expr_node_view(val),
            r_op,
            r_val: expr_node_view(r_val),
        },
        Expr::Compare(lhs, op, rhs) => ExprV::Compare(
            expr_node_view(lhs),
            op,
            expr_node_view(rhs),
        ),
        Expr::Range(r) => ExprV::Range(range_view(r)),
        Expr::Arith(lhs, op, rhs) => ExprV::Arith(expr_node_view(lhs), op, expr_node_view(rhs)),
        Expr::Unary(op, val) => ExprV::Unary(op, expr_node_view(val)),
        Expr::Coefficient(lhs, rhs) => ExprV::Coefficient(
            atom_node_view(lhs),
            expr_node_view(rhs),
        ),
        Expr::Die(val) => ExprV::Die(atom_node_view(val)),
        Expr::Primary(p) => ExprV::Primary(primary_view(p)),
    }
}

/// The model of an expression node.
pub open spec fn expr_node_view(n: Node<Expr>) -> Node<ExprV>
    decreases n,
{
    node(n.span, expr_view(*n.data))
}

/// The models of a sequence of expressions.
pub open spec fn expr_nodes_view(s: Seq<Node<Expr>>) -> Seq<Node<ExprV>>
    decreases s,
{
    Seq::new(
        s.len(),
        |i: int|
            if 0 <= i < s.len() {
                expr_node_view(s[i])
            } else {
                arbitrary()
            },
    )
}

/// The model of a block node.
pub open spec fn block_node_view(n: Node<ExprBlockEnclosed>) -> Node<BlockV>
    decreases n,
{
    node(n.span, expr_nodes_view(n.data.0@))
}

/// The model of a range.
pub open spec fn range_view(r: Range) -> RangeV
    decreases r,
{
    match r {
        Range::Range { start, end } => RangeV::Range {
            start: expr_node_view(start),
            end: expr_node_view(end),
        },
        Range::RangeI { start, end } => RangeV::RangeI {
            start: expr_node_view(start),
            end: expr_node_view(end),
        },
        Range::RangeFrom { start } => RangeV::RangeFrom { start: expr_node_view(start) },
        Range::RangeTo { end } => RangeV::RangeTo { end: expr_node_view(end) },
        Range::RangeToI { end } => RangeV::RangeToI { end: expr_node_view(end) },
        Range::RangeFull => RangeV::RangeFull,
    }
}

/// The model of a control-flow form.
pub open spec fn branch_view(b: Branch) -> BranchV
    decreases b,
{
    match b {
        Branch::If { val, block, else_block } => BranchV::If {
            val: expr_node_view(val),
            block: block_node_view(block),
            else_block: match else_block {
                Some(e) => Some(block_node_view(e)),
                None => None,
            },
        },
        Branch::Match { val, block } => BranchV::Match {
            val: expr_node_view(val),
            block: block_node_view(block),
        },
        Branch::For { target, val, block } => BranchV::For {
            target: target_node_view(target),
            val: expr_node_view(val),
            block: block_node_view(block),
        },
        Branch::While { val, block } => BranchV::While {
            val: expr_node_view(val),
            block: block_node_view(block),
        },
        Branch::Loop { block } => BranchV::Loop { block: block_node_view(block) },
    }
}

/// The model of a postfix chain.
pub open spec fn primary_view(p: Primary) -> PrimaryV
    decreases p,
{
    match p {
        Primary::Attribute(lhs, name) => PrimaryV::Attribute(
            primary_node_view(lhs),
            text_node_view(name),
        ),
        Primary::Subscription(lhs, items) => PrimaryV::Subscription(
            primary_node_view(lhs),
            expr_nodes_view(items@),
        ),
        Primary::Call(lhs, args) => PrimaryV::Call(
            primary_node_view(lhs),
            node(args.span, list_item_nodes_view(args.data.0@)),
        ),
        Primary::Atom(a) => PrimaryV::Atom(atom_view(a)),
    }
}

/// The model of a postfix chain node.
pub open spec fn primary_node_view(n: Node<Primary>) -> Node<PrimaryV>
    decreases n,
{
    node(n.span, primary_view(*n.data))
}

/// The model of an atom.
pub open spec fn atom_view(a: Atom) -> AtomV
    decreases a,
{
    match a {
        Atom::Id(x) => AtomV::Id(x@),
        Atom::Integer(n) => AtomV::Integer(n),
        Atom::String(x) => AtomV::String(x@),
        Atom::Boolean(b) => AtomV::Boolean(b),
        Atom::Null => AtomV::Null,
        Atom::Paren(item) => AtomV::Paren(list_item_node_view(item)),
        Atom::Tuple(items) => AtomV::Tuple(list_item_nodes_view(items@)),
        Atom::ListDisplay(items) => AtomV::ListDisplay(list_item_nodes_view(items@)),
        Atom::DictDisplay(items) => AtomV::DictDisplay(dict_item_nodes_view(items@)),
    }
}

/// The model of an atom node.
pub open spec fn atom_node_view(n: Node<Atom>) -> Node<AtomV>
    decreases n,
{
    node(n.span, atom_view(*n.data))
}

/// The model of an item.
pub open spec fn list_item_view(item: ListItem) -> ListItemV
    decreases item,
{
    match item {
        ListItem::Expr(e) => ListItemV::Expr(expr_view(e)),
        ListItem::Spread(e) => ListItemV::Spread(expr_node_view(e)),
    }
}

/// The model of an item node.
pub open spec fn list_item_node_view(n: Node<ListItem>) -> Node<ListItemV>
    decreases n,
{
    node(n.span, list_item_view(*n.data))
}

/// The models of a sequence of items.
pub open spec fn list_item_nodes_view(s: Seq<Node<ListItem>>) -> Seq<Node<ListItemV>>
    decreases s,
{
    Seq::new(
        s.len(),
        |i: int|
            if 0 <= i < s.len() {
                list_item_node_view(s[i])
            } else {
                arbitrary()
            },
    )
}

/// The model of a dict item.
pub open spec fn dict_item_view(item: DictItem) -> DictItemV
    decreases item,
{
    match item {
        DictItem::Shorthand(x) => DictItemV::Shorthand(x@),
        DictItem::Spread(e) => DictItemV::Spread(expr_node_view(e)),
        DictItem::KeyVal { key, val } => DictItemV::KeyVal {
            key: text_node_view(key),
            val: expr_node_view(val),
        },
    }
}

/// The models of a sequence of dict items.
pub open spec fn dict_item_nodes_view(s: Seq<Node<DictItem>>) -> Seq<Node<DictItemV>>
    decreases s,
{
    Seq::new(
        s.len(),
        |i: int|
            if 0 <= i < s.len() {
                node(s[i].span, dict_item_view(*s[i].data))
            } else {
                arbitrary()
            },
    )
}

impl View for Expr {
    type V = ExprV;

    open spec fn view(&self) -> ExprV {
        expr_view(*self)
    }
}

impl View for Range {
    type V = RangeV;

    open spec fn view(&self) -> RangeV {
        range_view(*self)
    }
}

impl View for Branch {
    type V = BranchV;

    open spec fn view(&self) -> BranchV {
        branch_view(*self)
    }
}

impl View for Primary {
    type V = PrimaryV;

    open spec fn view(&self) -> PrimaryV {
        primary_view(*self)
    }
}

impl View for Atom {
    type V = AtomV;

    open spec fn view(&self) -> AtomV {
        atom_view(*self)
    }
}

impl View for ListItem {
    type V = ListItemV;

    open spec fn view(&self) -> ListItemV {
        list_item_view(*self)
    }
}

impl View for DictItem {
    type V = DictItemV;

    open spec fn view(&self) -> DictItemV {
        dict_item_view(*self)
    }
}

impl View for Args {
    type V = Seq<Node<ListItemV>>;

    open spec fn view(&self) -> Seq<Node<ListItemV>> {
        list_item_nodes_view(self.0@)
    }
}

impl View for ArgsDef {
    type V = Seq<Node<TargetV>>;

    open spec fn view(&self) -> Seq<Node<TargetV>> {
        target_nodes_view(self.0@)
    }
}

impl View for ExprBlock {
    type V = BlockV;

    open spec fn view(&self) -> BlockV {
        expr_nodes_view(self.0@)
    }
}

impl View for ExprBlockTop {
    type V = BlockV;

    open spec fn view(&self) -> BlockV {
        expr_nodes_view(self.0@)
    }
}

impl View for ExprBlockEnclosed {
    type V = BlockV;

    open spec fn view(&self) -> BlockV {
        expr_nodes_view(self.0@)
    }
}

impl View for Target {
    type V = TargetV;

    open spec fn view(&self) -> TargetV {
        target_view(*self)
    }
}

impl View for TargetListItem {
    type V = TargetListItemV;

    open spec fn view(&self) -> TargetListItemV {
        target_list_item_view(*self)
    }
}

impl View for TargetDictItem {
    type V = TargetDictItemV;

    open spec fn view(&self) -> TargetDictItemV {
        target_dict_item_view(*self)
    }
}

impl View for TargetList {
    type V = TargetListV;

    open spec fn view(&self) -> TargetListV {
        match self {
            TargetList::Target(t) => TargetListV::Target(target_view(*t)),
            TargetList::List(v) => TargetListV::List(target_nodes_view(v@)),
        }
    }
}

} // verus!
