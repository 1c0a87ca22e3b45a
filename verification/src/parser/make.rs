use super::grammar;
use super::grammar::SuffixV;
use crate::ast::model::{
    dict_item_nodes_view, expr_nodes_view, list_item_nodes_view, node, AtomV, DictItemV, ExprV,
    ListItemV, RangeV,
};
use crate::ast::{
    Args, Atom, DictItem, Expr, ListItem, OpArith, OpEqs, OpRange, Primary, Range, Target,
};
use crate::types::{Node, Span};
use vstd::prelude::*;

verus! {

/// One suffix of a postfix chain.
#[derive(Debug, PartialEq)]
pub enum Suffix {
    Attribute(Node<String>),
    Subscription(Vec<Node<Expr>>),
    Call(Node<Args>),
}

impl View for Suffix {
    type V = SuffixV;

    open spec fn view(&self) -> SuffixV {
        match self {
            Suffix::Attribute(name) => SuffixV::Attribute(node(name.span, name.data@)),
            Suffix::Subscription(items) => SuffixV::Subscription(expr_nodes_view(items@)),
            Suffix::Call(args) => SuffixV::Call(
                node(args.span, list_item_nodes_view(args.data.0@)),
            ),
        }
    }
}

/// The model of an optional node.
pub open spec fn opt_view<T: View>(o: Option<Node<T>>) -> Option<Node<T::V>> {
    match o {
        Some(n) => Some(n@),
        None => None,
    }
}

/// The model of an optional comparison: its operator and right operand.
pub open spec fn opt_pair_view(o: Option<(Node<OpEqs>, Node<Expr>)>) -> Option<
    (Node<OpEqs>, Node<ExprV>),
> {
    match o {
        Some((op, e)) => Some((op, e@)),
        None => None,
    }
}

/// A postfix chain as an expression, under the same span.
pub(crate) fn primary_expr(val: Node<Primary>) -> (r: Node<Expr>)
    ensures
        r@ == grammar::primary_expr(val@),
{
    let Node { span, data } = val;
    Node::new(span, Expr::Primary(*data))
}

/// An atom as an expression, under the same span.
pub(crate) fn atom_expr(val: Node<Atom>) -> (r: Node<Expr>)
    ensures
        r@ == grammar::atom_expr(val@),
{
    let Node { span, data } = val;
    Node::new(span, Expr::Primary(Primary::Atom(*data)))
}

/// An atom as the start of a postfix chain, under the same span.
pub(crate) fn atom_primary(val: Node<Atom>) -> (r: Node<Primary>)
    ensures
        r@ == grammar::atom_primary(val@),
{
    let Node { span, data } = val;
    Node::new(span, Primary::Atom(*data))
}

/// An expression as a plain item, under the same span.
pub(crate) fn plain_item(e: Node<Expr>) -> (r: Node<ListItem>)
    ensures
        r@ == grammar::plain_item(e@),
{
    let Node { span, data } = e;
    Node::new(span, ListItem::Expr(*data))
}

/// A spread item: from the `...` at `op` to the end of the expression.
pub(crate) fn spread_item(op: Span, e: Node<Expr>) -> (r: Node<ListItem>)
    ensures
        r@ == node(op.hull(e@.span), ListItemV::Spread(e@)),
{
    let span = op + e.span;
    Node::new(span, ListItem::Spread(e))
}

/// A spread dict item: from the `...` at `op` to the end of the expression.
pub(crate) fn dict_spread(op: Span, e: Node<Expr>) -> (r: Node<DictItem>)
    ensures
        r@ == node(op.hull(e@.span), DictItemV::Spread(e@)),
{
    let span = op + e.span;
    Node::new(span, DictItem::Spread(e))
}

/// A key with its value: from the key to the end of the value.
pub(crate) fn key_val(key_span: Span, key: String, val: Node<Expr>) -> (r: Node<DictItem>)
    ensures
        r@ == node(
            key_span.hull(val@.span),
            DictItemV::KeyVal { key: node(key_span, key@), val: val@ },
        ),
{
    let span = key_span + val.span;
    Node::new(span, DictItem::KeyVal { key: Node::new(key_span, key), val })
}

/// A key alone.
pub(crate) fn shorthand(span: Span, key: String) -> (r: Node<DictItem>)
    ensures
        r@ == node(span, DictItemV::Shorthand(key@)),
{
    Node::new(span, DictItem::Shorthand(key))
}

/// What stands between parentheses: one item is a parenthesised item,
/// any other number of items a tuple.
pub(crate) fn grouped(span: Span, items: Vec<Node<ListItem>>) -> (r: Node<Atom>)
    ensures
        r@ == node(span, grammar::grouped(list_item_nodes_view(items@))),
{
    let mut items = items;
    if items.len() == 1 {
        let ghost before = items@;
        let item = items.pop().unwrap();
        assert(item == before[0]);
        Node::new(span, Atom::Paren(item))
    } else {
        Node::new(span, Atom::Tuple(items))
    }
}

/// A list display.
pub(crate) fn list_display(span: Span, items: Vec<Node<ListItem>>) -> (r: Node<Atom>)
    ensures
        r@ == node(span, AtomV::ListDisplay(list_item_nodes_view(items@))),
{
    Node::new(span, Atom::ListDisplay(items))
}

/// A dict display.
pub(crate) fn dict_display(span: Span, items: Vec<Node<DictItem>>) -> (r: Node<Atom>)
    ensures
        r@ == node(span, AtomV::DictDisplay(dict_item_nodes_view(items@))),
{
    Node::new(span, Atom::DictDisplay(items))
}

/// An identifier.
pub(crate) fn id_atom(span: Span, name: String) -> (r: Node<Atom>)
    ensures
        r@ == node(span, AtomV::Id(name@)),
{
    Node::new(span, Atom::Id(name))
}

/// A string literal.
pub(crate) fn string_atom(span: Span, text: String) -> (r: Node<Atom>)
    ensures
        r@ == node(span, AtomV::String(text@)),
{
    Node::new(span, Atom::String(text))
}

/// The suffix `.name`, under the span of the name.
pub(crate) fn attribute(span: Span, name: String) -> (r: Node<Suffix>)
    ensures
        r@ == node(span, SuffixV::Attribute(node(span, name@))),
{
    Node::new(span, Suffix::Attribute(Node::new(span, name)))
}

/// The suffix `[items]`, under the span of the closing bracket.
pub(crate) fn subscription(close: Span, items: Vec<Node<Expr>>) -> (r: Node<Suffix>)
    ensures
        r@ == node(close, SuffixV::Subscription(expr_nodes_view(items@))),
{
    Node::new(close, Suffix::Subscription(items))
}

/// The suffix `(items)`, under the span of the closing parenthesis; the
/// arguments span from the opening one.
pub(crate) fn call(open: Span, close: Span, items: Vec<Node<ListItem>>) -> (r: Node<Suffix>)
    ensures
        r@ == node(close, SuffixV::Call(node(open.hull(close), list_item_nodes_view(items@)))),
{
    let args = Node::new(open + close, Args(items));
    Node::new(close, Suffix::Call(args))
}

/// Puts one suffix behind `lhs`.
pub(crate) fn attach(lhs: Node<Primary>, s: Node<Suffix>) -> (r: Node<Primary>)
    ensures
        r@ == grammar::attach(lhs@, s@),
{
    let span = lhs.span + s.span;
    let Node { span: _, data } = s;
    match *data {
        Suffix::Attribute(name) => Node::new(span, Primary::Attribute(lhs, name)),
        Suffix::Subscription(items) => Node::new(span, Primary::Subscription(lhs, items)),
        Suffix::Call(args) => Node::new(span, Primary::Call(lhs, args)),
    }
}

/// A binary operation over the hull of its operands.
pub(crate) fn arith(lhs: Node<Expr>, op: Node<OpArith>, rhs: Node<Expr>) -> (r: Node<Expr>)
    ensures
        r@ == grammar::arith(lhs@, op, rhs@),
{
    let span = lhs.span + rhs.span;
    Node::new(span, Expr::Arith(lhs, op, rhs))
}

/// A signed expression: from the sign to the end of the operand.
pub(crate) fn unary(op: Node<OpArith>, rhs: Node<Expr>) -> (r: Node<Expr>)
    ensures
        r@ == node(op.span.hull(rhs@.span), ExprV::Unary(op, rhs@)),
{
    let span = op.span + rhs.span;
    Node::new(span, Expr::Unary(op, rhs))
}

/// A number in front of an expression.
pub(crate) fn coefficient(lhs: Node<Atom>, rhs: Node<Expr>) -> (r: Node<Expr>)
    ensures
        r@ == node(lhs@.span.hull(rhs@.span), ExprV::Coefficient(lhs@, rhs@)),
{
    let span = lhs.span + rhs.span;
    Node::new(span, Expr::Coefficient(lhs, rhs))
}

/// A die: from the operator at `op` to the end of the number of sides.
pub(crate) fn die(op: Span, rhs: Node<Atom>) -> (r: Node<Expr>)
    ensures
        r@ == node(op.hull(rhs@.span), ExprV::Die(rhs@)),
{
    let span = op + rhs.span;
    Node::new(span, Expr::Die(rhs))
}

/// A negation: from the `not` at `op` to the end of the operand.
pub(crate) fn not(op: Span, rhs: Node<Expr>) -> (r: Node<Expr>)
    ensures
        r@ == node(op.hull(rhs@.span), ExprV::Not(rhs@)),
{
    let span = op + rhs.span;
    Node::new(span, Expr::Not(rhs))
}

/// A conjunction over the hull of its operands.
pub(crate) fn and(lhs: Node<Expr>, rhs: Node<Expr>) -> (r: Node<Expr>)
    ensures
        r@ == node(lhs@.span.hull(rhs@.span), ExprV::And(lhs@, rhs@)),
{
    let span = lhs.span + rhs.span;
    Node::new(span, Expr::And(lhs, rhs))
}

/// A disjunction over the hull of its operands.
pub(crate) fn or(lhs: Node<Expr>, rhs: Node<Expr>) -> (r: Node<Expr>)
    ensures
        r@ == node(lhs@.span.hull(rhs@.span), ExprV::Or(lhs@, rhs@)),
{
    let span = lhs.span + rhs.span;
    Node::new(span, Expr::Or(lhs, rhs))
}

/// A pattern bound to an expression, over the hull of both.
pub(crate) fn assign(target: Node<Target>, rhs: Node<Expr>) -> (r: Node<Expr>)
    ensures
        r@ == grammar::assigned(target@, rhs@),
{
    let span = target.span + rhs.span;
    Node::new(span, Expr::Assign(target, rhs))
}

/// A left operand with up to two comparisons behind it.
pub(crate) fn compared(
    lhs: Node<Expr>,
    val: Option<(Node<OpEqs>, Node<Expr>)>,
    rhs: Option<(Node<OpEqs>, Node<Expr>)>,
) -> (r: Node<Expr>)
    ensures
        r@ == grammar::compared(lhs@, opt_pair_view(val), opt_pair_view(rhs)),
{
    match (val, rhs) {
        (Some((l_op, val)), Some((r_op, rhs))) => {
            let span = lhs.span + rhs.span;
            Node::new(span, Expr::CompareBound { l_val: lhs, l_op, val, r_op, r_val: rhs })
        },
        (Some((op, rhs)), None) => {
            let span = lhs.span + rhs.span;
            Node::new(span, Expr::Compare(lhs, op, rhs))
        },
        (None, Some((op, rhs))) => {
            let span = lhs.span + rhs.span;
            Node::new(span, Expr::Compare(lhs, op, rhs))
        },
        (None, None) => lhs,
    }
}

/// A range with optional bounds around its operator.
pub(crate) fn ranged(start: Option<Node<Expr>>, op: Node<OpRange>, end: Option<Node<Expr>>) -> (r: Node<
    Expr,
>)
    ensures
        r@ == grammar::ranged(opt_view(start), op, opt_view(end)),
{
    match (start, end) {
        (Some(start), Some(end)) => {
            let span = start.span + end.span;
            let range = match *op.data {
                OpRange::RANGE => Range::Range { start, end },
                OpRange::RANGEI => Range::RangeI { start, end },
            };
            assert(range@ == match *op.data {
                OpRange::RANGE => RangeV::Range { start: start@, end: end@ },
                OpRange::RANGEI => RangeV::RangeI { start: start@, end: end@ },
            });
            Node::new(span, Expr::Range(range))
        },
        (Some(start), None) => {
            let span = start.span + op.span;
            let range = Range::RangeFrom { start };
            assert(range@ == RangeV::RangeFrom { start: start@ });
            Node::new(span, Expr::Range(range))
        },
        (None, Some(end)) => {
            let span = op.span + end.span;
            let range = match *op.data {
                OpRange::RANGE => Range::RangeTo { end },
                OpRange::RANGEI => Range::RangeToI { end },
            };
            assert(range@ == match *op.data {
                OpRange::RANGE => RangeV::RangeTo { end: end@ },
                OpRange::RANGEI => RangeV::RangeToI { end: end@ },
            });
            Node::new(span, Expr::Range(range))
        },
        (None, None) => {
            let range = Range::RangeFull;
            assert(range@ == RangeV::RangeFull);
            Node::new(op.span, Expr::Range(range))
        },
    }
}

} // verus!
