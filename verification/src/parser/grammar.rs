use super::error::{ErrorKind, KError};
use crate::ast::model::{
    node, AtomV, DictItemV, ExprV, ListItemV, PrimaryV, RangeV, TargetV,
};
use crate::ast::op::{OpArith, OpEqs, OpRange};
use crate::ast::rewrite::target_of_expr;
use crate::token::TokenV;
use crate::types::{Node, ONode, Span};
use vstd::prelude::*;

verus! {

/// A lexed input in the model: every token with its span.
pub type Tokens = Seq<Node<TokenV>>;

/// What a parser yields at a position: the position after what it consumed
/// and the value read, or the way it gave up.
pub type SResult<T> = Result<(nat, T), KError>;

/// The span of the token at `pos`, if there is one.
pub open spec fn head_span(ts: Tokens, pos: nat) -> Option<Span> {
    if pos < ts.len() {
        Some(ts[pos as int].span)
    } else {
        None
    }
}

/// The recoverable error of a parser that does not match at `pos`.
pub open spec fn no_match<T>(ts: Tokens, pos: nat) -> SResult<T> {
    Err(KError::spec_error(head_span(ts, pos), ErrorKind::Grammar))
}

/// The outcome at a position that no parser reaches: every parser that
/// succeeds consumes a token and stays inside the input.
pub open spec fn stuck<T>() -> SResult<T> {
    Err(KError::spec_failure(None, ErrorKind::Runtime))
}

/// `to` lies after `from` and inside the input.
pub open spec fn ahead(ts: Tokens, from: nat, to: nat) -> bool {
    from < to <= ts.len()
}

/// The token at `pos` is `tag`.
pub open spec fn tag_at(ts: Tokens, pos: nat, tag: TokenV) -> bool {
    pos < ts.len() && *ts[pos as int].data == tag
}

/// Consumes the token at `pos` if it equals `tag`.
pub open spec fn token_tag(ts: Tokens, pos: nat, tag: TokenV) -> SResult<Node<TokenV>> {
    if tag_at(ts, pos, tag) {
        Ok((pos + 1, ts[pos as int]))
    } else {
        no_match(ts, pos)
    }
}

/// Consumes the token at `pos` if `action` yields a value for it.
pub open spec fn token_action<T>(
    ts: Tokens,
    pos: nat,
    action: spec_fn(Node<TokenV>) -> Option<T>,
) -> SResult<T> {
    if pos < ts.len() && action(ts[pos as int]) is Some {
        Ok((pos + 1, action(ts[pos as int]).unwrap()))
    } else {
        no_match(ts, pos)
    }
}

/// A parser made optional: a recoverable error becomes `None` at `pos`.
pub open spec fn opt<T>(pos: nat, r: SResult<T>) -> SResult<Option<T>> {
    match r {
        Ok((p, x)) => Ok((p, Some(x))),
        Err(KError::Error(_)) => Ok((pos, None)),
        Err(KError::Failure(e)) => Err(KError::Failure(e)),
    }
}

/// The first of two alternatives that does not give up recoverably.
pub open spec fn alt<T>(first: SResult<T>, second: SResult<T>) -> SResult<T> {
    match first {
        Err(KError::Error(_)) => second,
        _ => first,
    }
}

/// The result of an optional right part that extends `left`: where the
/// right part does not match, `left` stands alone and ends at `pos`.
pub open spec fn or_left<T>(pos: nat, left: T, r: SResult<T>) -> SResult<T> {
    match r {
        Ok(x) => Ok(x),
        Err(KError::Error(_)) => Ok((pos, left)),
        Err(KError::Failure(e)) => Err(KError::Failure(e)),
    }
}

/// The comparison operator that a token is, if it is one.
pub open spec fn eqs_of(t: TokenV) -> Option<OpEqs> {
    match t {
        TokenV::EQ => Some(OpEqs::EQ),
        TokenV::NE => Some(OpEqs::NE),
        TokenV::LT => Some(OpEqs::LT),
        TokenV::LE => Some(OpEqs::LE),
        TokenV::GT => Some(OpEqs::GT),
        TokenV::GE => Some(OpEqs::GE),
        _ => None,
    }
}

/// The range operator that a token is, if it is one.
pub open spec fn ranges_of(t: TokenV) -> Option<OpRange> {
    match t {
        TokenV::RANGE => Some(OpRange::RANGE),
        TokenV::RANGEI => Some(OpRange::RANGEI),
        _ => None,
    }
}

/// The additive operator that a token is, if it is one.
pub open spec fn adds_of(t: TokenV) -> Option<OpArith> {
    match t {
        TokenV::ADD => Some(OpArith::ADD),
        TokenV::SUB => Some(OpArith::SUB),
        _ => None,
    }
}

/// The multiplicative operator that a token is, if it is one.
pub open spec fn muls_of(t: TokenV) -> Option<OpArith> {
    match t {
        TokenV::MOD => Some(OpArith::MOD),
        TokenV::MUL => Some(OpArith::MUL),
        TokenV::DIV => Some(OpArith::DIV),
        _ => None,
    }
}

/// The power operator that a token is, if it is one.
pub open spec fn pow_of(t: TokenV) -> Option<OpArith> {
    match t {
        TokenV::POW => Some(OpArith::POW),
        _ => None,
    }
}

/// Reads one operator token: the operator that `op` gives for the token at
/// `pos`, under that token's span.
pub open spec fn operator<O>(ts: Tokens, pos: nat, op: spec_fn(TokenV) -> Option<O>) -> SResult<
    Node<O>,
> {
    token_action(
        ts,
        pos,
        |t: Node<TokenV>|
            match op(*t.data) {
                Some(o) => Some(node(t.span, o)),
                None => None,
            },
    )
}

/// A comparison operator.
pub open spec fn eqs(ts: Tokens, pos: nat) -> SResult<Node<OpEqs>> {
    operator(ts, pos, |t: TokenV| eqs_of(t))
}

/// A range operator.
pub open spec fn ranges(ts: Tokens, pos: nat) -> SResult<Node<OpRange>> {
    operator(ts, pos, |t: TokenV| ranges_of(t))
}

/// An additive operator, which is also a sign.
pub open spec fn adds(ts: Tokens, pos: nat) -> SResult<Node<OpArith>> {
    operator(ts, pos, |t: TokenV| adds_of(t))
}

/// A multiplicative operator.
pub open spec fn muls(ts: Tokens, pos: nat) -> SResult<Node<OpArith>> {
    operator(ts, pos, |t: TokenV| muls_of(t))
}

/// The power operator.
pub open spec fn pow(ts: Tokens, pos: nat) -> SResult<Node<OpArith>> {
    operator(ts, pos, |t: TokenV| pow_of(t))
}

/// A numeric literal, as an atom.
pub open spec fn numeric_literal(ts: Tokens, pos: nat) -> SResult<Node<AtomV>> {
    token_action(
        ts,
        pos,
        |t: Node<TokenV>|
            match *t.data {
                TokenV::Integer(n) => Some(node(t.span, AtomV::Integer(n))),
                _ => None,
            },
    )
}

/// A binary node over the hull of its operands.
pub open spec fn arith(lhs: Node<ExprV>, op: Node<OpArith>, rhs: Node<ExprV>) -> Node<ExprV> {
    node(lhs.span.hull(rhs.span), ExprV::Arith(lhs, op, rhs))
}

/// The right operand of `lhs op`, read as `r`, makes a binary node.
pub open spec fn arith_with(lhs: Node<ExprV>, op: Node<OpArith>, r: SResult<Node<ExprV>>) -> SResult<
    Node<ExprV>,
> {
    match r {
        Ok((p, rhs)) => Ok((p, arith(lhs, op, rhs))),
        Err(e) => Err(e),
    }
}

/// The position behind the run of delimiters that starts at `pos`.
pub open spec fn delims(ts: Tokens, pos: nat) -> nat
    decreases ts.len() - pos,
{
    if tag_at(ts, pos, TokenV::DELIM) {
        delims(ts, pos + 1)
    } else {
        pos
    }
}

/// The spans of the tokens from `from` up to `to`.
pub open spec fn spans_between(ts: Tokens, from: nat, to: nat) -> Seq<Span> {
    Seq::new((to - from) as nat, |k: int| ts[from + k].span)
}

/// The spans of the nodes of a sequence.
pub open spec fn spans_of_nodes<T>(nodes: Seq<Node<T>>) -> Seq<Span> {
    Seq::new(nodes.len(), |k: int| nodes[k].span)
}

/// Expressions separated by runs of delimiters, possibly none.
pub open spec fn lines(ts: Tokens, pos: nat) -> SResult<Seq<Node<ExprV>>>
    decreases ts.len() - pos, 22nat,
{
    match expr(ts, pos) {
        Err(KError::Error(_)) => Ok((pos, Seq::empty())),
        Err(KError::Failure(e)) => Err(KError::Failure(e)),
        Ok((p1, x)) => if !ahead(ts, pos, p1) {
            stuck()
        } else {
            more_lines(ts, p1, seq![x])
        },
    }
}

/// The expressions that follow `acc` at `pos`, each behind a run of
/// delimiters; delimiters that no expression follows are left unread.
pub open spec fn more_lines(ts: Tokens, pos: nat, acc: Seq<Node<ExprV>>) -> SResult<
    Seq<Node<ExprV>>,
>
    decreases ts.len() - pos, 22nat,
{
    if !tag_at(ts, pos, TokenV::DELIM) {
        Ok((pos, acc))
    } else if !ahead(ts, pos, delims(ts, pos)) {
        stuck()
    } else {
        match expr(ts, delims(ts, pos)) {
            Err(KError::Error(_)) => Ok((pos, acc)),
            Err(KError::Failure(e)) => Err(KError::Failure(e)),
            Ok((p1, x)) => if !ahead(ts, pos, p1) {
                stuck()
            } else {
                more_lines(ts, p1, acc.push(x))
            },
        }
    }
}

/// The span of a list of expressions that may be empty: the hull of the
/// expressions, or else from the start of the token at `pos` to the start
/// of the token at `end`, or to the end of the former where the input ends
/// at `end`.
pub open spec fn list_span0(ts: Tokens, pos: nat, end: nat, val: Seq<Node<ExprV>>) -> Span {
    match Span::hull_seq(spans_of_nodes(val)) {
        Some(span) => span,
        None => Span {
            start: ts[pos as int].span.start,
            end: if end < ts.len() {
                ts[end as int].span.start
            } else {
                ts[pos as int].span.end
            },
        },
    }
}

/// Any number of expressions, separated and surrounded by delimiters;
/// `None` at the end of the input.
pub open spec fn expr_list0(ts: Tokens, pos: nat) -> SResult<Option<Node<Seq<Node<ExprV>>>>> {
    if pos >= ts.len() {
        Ok((pos, None))
    } else {
        match lines(ts, delims(ts, pos)) {
            Err(e) => Err(e),
            Ok((p2, val)) => Ok(
                (delims(ts, p2), Some(node(list_span0(ts, pos, delims(ts, p2), val), val))),
            ),
        }
    }
}

/// An expression, at least one delimiter, and any number of expressions
/// more; delimiters may stand in front and behind. The list spans its
/// expressions and the delimiters around them.
pub open spec fn expr_list1(ts: Tokens, pos: nat) -> SResult<Node<Seq<Node<ExprV>>>> {
    let p1 = delims(ts, pos);
    match expr(ts, p1) {
        Err(e) => Err(e),
        Ok((ph, head)) => if !tag_at(ts, ph, TokenV::DELIM) {
            no_match(ts, ph)
        } else {
            match lines(ts, delims(ts, ph)) {
                Err(e) => Err(e),
                Ok((p3, val)) => {
                    let all = seq![head] + val;
                    let p4 = delims(ts, p3);
                    Ok(
                        (
                            p4,
                            node(
                                head.span.hull_with(Span::hull_seq(spans_of_nodes(all))).hull_with(
                                    Span::hull_seq(spans_between(ts, pos, p1)),
                                ).hull_with(Span::hull_seq(spans_between(ts, p3, p4))),
                                all,
                            ),
                        ),
                    )
                },
            }
        },
    }
}

/// A grammar error at a span that may be unknown.
pub open spec fn grammar_error(span: Option<Span>) -> ONode<ErrorKind> {
    ONode { span, data: Box::new(ErrorKind::Grammar) }
}

/// The expression that the whole of `ts` reads as.
///
/// A failure keeps its pinned span. A recoverable error that escapes is
/// reported at the first token, and tokens left behind the expression are
/// an error at the first of them.
pub open spec fn parse(ts: Tokens) -> Result<Node<ExprV>, ONode<ErrorKind>> {
    match expr(ts, 0) {
        Ok((p, n)) => if p == ts.len() {
            Ok(n)
        } else {
            Err(grammar_error(head_span(ts, p)))
        },
        Err(KError::Failure(e)) => Err(e),
        Err(KError::Error(_)) => Err(grammar_error(head_span(ts, 0))),
    }
}

/// `expr := assignment_expr`
pub open spec fn expr(ts: Tokens, pos: nat) -> SResult<Node<ExprV>>
    decreases ts.len() - pos, 18nat,
{
    assignment_expr(ts, pos)
}

/// A pattern bound to an expression, over the hull of both.
pub open spec fn assigned(target: Node<TargetV>, rhs: Node<ExprV>) -> Node<ExprV> {
    node(target.span.hull(rhs.span), ExprV::Assign(target, rhs))
}

/// `assignment_expr := conditional_expr [":=" assignment_expr]`
///
/// `:=` groups to the right: what stands behind it is read at this same
/// level, so that `a := b := c` binds `a` to the binding of `b` to `c`.
/// Once `:=` is read the parse is committed: a left side that stands for
/// no pattern is a failure at the span of `:=`.
pub open spec fn assignment_expr(ts: Tokens, pos: nat) -> SResult<Node<ExprV>>
    decreases ts.len() - pos, 17nat,
{
    match conditional_expr(ts, pos) {
        Err(e) => Err(e),
        Ok((p1, lhs)) => if !tag_at(ts, p1, TokenV::ASSIGNE) {
            Ok((p1, lhs))
        } else {
            match target_of_expr(lhs.span, *lhs.data) {
                None => Err(KError::spec_failure(Some(ts[p1 as int].span), ErrorKind::Grammar)),
                Some(target) => if !ahead(ts, pos, p1 + 1) {
                    stuck()
                } else {
                    match assignment_expr(ts, p1 + 1) {
                        Err(e) => Err(e),
                        Ok((p2, rhs)) => Ok((p2, assigned(target, rhs))),
                    }
                },
            }
        },
    }
}

/// `conditional_expr := if_expr | match_expr | for_expr | while_expr | loop_expr | lambda_expr`
pub open spec fn conditional_expr(ts: Tokens, pos: nat) -> SResult<Node<ExprV>>
    decreases ts.len() - pos, 16nat,
{
    alt(
        if_expr(ts, pos),
        alt(
            match_expr(ts, pos),
            alt(
                for_expr(ts, pos),
                alt(while_expr(ts, pos), alt(loop_expr(ts, pos), lambda_expr(ts, pos))),
            ),
        ),
    )
}

/// Reserved: reads what `lambda_expr` reads.
pub open spec fn if_expr(ts: Tokens, pos: nat) -> SResult<Node<ExprV>>
    decreases ts.len() - pos, 15nat,
{
    lambda_expr(ts, pos)
}

/// Reserved: reads what `lambda_expr` reads.
pub open spec fn match_expr(ts: Tokens, pos: nat) -> SResult<Node<ExprV>>
    decreases ts.len() - pos, 15nat,
{
    lambda_expr(ts, pos)
}

/// Reserved: reads what `lambda_expr` reads.
pub open spec fn for_expr(ts: Tokens, pos: nat) -> SResult<Node<ExprV>>
    decreases ts.len() - pos, 15nat,
{
    lambda_expr(ts, pos)
}

/// Reserved: reads what `lambda_expr` reads.
pub open spec fn while_expr(ts: Tokens, pos: nat) -> SResult<Node<ExprV>>
    decreases ts.len() - pos, 15nat,
{
    lambda_expr(ts, pos)
}

/// Reserved: reads what `lambda_expr` reads.
pub open spec fn loop_expr(ts: Tokens, pos: nat) -> SResult<Node<ExprV>>
    decreases ts.len() - pos, 15nat,
{
    lambda_expr(ts, pos)
}

/// `lambda_expr := or_test`
pub open spec fn lambda_expr(ts: Tokens, pos: nat) -> SResult<Node<ExprV>>
    decreases ts.len() - pos, 14nat,
{
    or_test(ts, pos)
}

/// `or_test := and_test ["or" or_test]`
pub open spec fn or_test(ts: Tokens, pos: nat) -> SResult<Node<ExprV>>
    decreases ts.len() - pos, 13nat,
{
    match and_test(ts, pos) {
        Err(e) => Err(e),
        Ok((p1, lhs)) => if !tag_at(ts, p1, TokenV::OR) {
            Ok((p1, lhs))
        } else if !ahead(ts, pos, p1 + 1) {
            stuck()
        } else {
            or_left(
                p1,
                lhs,
                match or_test(ts, p1 + 1) {
                    Ok((p2, rhs)) => Ok((p2, node(lhs.span.hull(rhs.span), ExprV::Or(lhs, rhs)))),
                    Err(e) => Err(e),
                },
            )
        },
    }
}

/// `and_test := not_test ["and" and_test]`
pub open spec fn and_test(ts: Tokens, pos: nat) -> SResult<Node<ExprV>>
    decreases ts.len() - pos, 12nat,
{
    match not_test(ts, pos) {
        Err(e) => Err(e),
        Ok((p1, lhs)) => if !tag_at(ts, p1, TokenV::AND) {
            Ok((p1, lhs))
        } else if !ahead(ts, pos, p1 + 1) {
            stuck()
        } else {
            or_left(
                p1,
                lhs,
                match and_test(ts, p1 + 1) {
                    Ok((p2, rhs)) => Ok((p2, node(lhs.span.hull(rhs.span), ExprV::And(lhs, rhs)))),
                    Err(e) => Err(e),
                },
            )
        },
    }
}

/// `not_test := ["not"] c_expr`
pub open spec fn not_test(ts: Tokens, pos: nat) -> SResult<Node<ExprV>>
    decreases ts.len() - pos, 11nat,
{
    if tag_at(ts, pos, TokenV::NOT) {
        match c_expr(ts, pos + 1) {
            Ok((p, rhs)) => Ok((p, node(ts[pos as int].span.hull(rhs.span), ExprV::Not(rhs)))),
            Err(e) => Err(e),
        }
    } else {
        c_expr(ts, pos)
    }
}

/// One comparison operator and its right operand.
pub open spec fn c_tail(ts: Tokens, pos: nat) -> SResult<(Node<OpEqs>, Node<ExprV>)>
    decreases ts.len() - pos, 0nat,
{
    match eqs(ts, pos) {
        Err(e) => Err(e),
        Ok((p1, op)) => match r_expr(ts, p1) {
            Ok((p2, rhs)) => Ok((p2, (op, rhs))),
            Err(e) => Err(e),
        },
    }
}

/// `c_expr := r_expr [eqs r_expr] [eqs r_expr]`
///
/// One comparison makes a `Compare`, two make a `CompareBound`; a third
/// operator is left unread.
pub open spec fn c_expr(ts: Tokens, pos: nat) -> SResult<Node<ExprV>>
    decreases ts.len() - pos, 10nat,
{
    match r_expr(ts, pos) {
        Err(e) => Err(e),
        Ok((p1, lhs)) => if !ahead(ts, pos, p1) {
            stuck()
        } else {
            match opt(p1, c_tail(ts, p1)) {
                Err(e) => Err(e),
                Ok((p2, val)) => if !ahead(ts, pos, p2) {
                    stuck()
                } else {
                    match opt(p2, c_tail(ts, p2)) {
                        Err(e) => Err(e),
                        Ok((p3, rhs)) => Ok((p3, compared(lhs, val, rhs))),
                    }
                },
            }
        },
    }
}

/// The node that a left operand and up to two comparisons make.
pub open spec fn compared(
    lhs: Node<ExprV>,
    val: Option<(Node<OpEqs>, Node<ExprV>)>,
    rhs: Option<(Node<OpEqs>, Node<ExprV>)>,
) -> Node<ExprV> {
    match (val, rhs) {
        (Some((l_op, val)), Some((r_op, rhs))) => node(
            lhs.span.hull(rhs.span),
            ExprV::CompareBound { l_val: lhs, l_op, val, r_op, r_val: rhs },
        ),
        (Some((op, rhs)), None) => node(lhs.span.hull(rhs.span), ExprV::Compare(lhs, op, rhs)),
        (None, Some((op, rhs))) => node(lhs.span.hull(rhs.span), ExprV::Compare(lhs, op, rhs)),
        (None, None) => lhs,
    }
}

/// `r_expr := [a_expr] [ranges [a_expr]]`, not both absent.
///
/// An inclusive range needs its end: `..=` with no expression behind it is
/// a failure at the span of the operator.
pub open spec fn r_expr(ts: Tokens, pos: nat) -> SResult<Node<ExprV>>
    decreases ts.len() - pos, 9nat,
{
    match opt(pos, a_expr(ts, pos)) {
        Err(e) => Err(e),
        Ok((p1, start)) => match ranges(ts, p1) {
            Err(_) => match start {
                Some(lhs) => Ok((p1, lhs)),
                None => no_match(ts, p1),
            },
            Ok((p2, op)) => if !ahead(ts, pos, p2) {
                stuck()
            } else {
                match opt(p2, a_expr(ts, p2)) {
                    Err(e) => Err(e),
                    Ok((p3, end)) => if end is None && *op.data == OpRange::RANGEI {
                        Err(KError::spec_failure(Some(op.span), ErrorKind::Grammar))
                    } else {
                        Ok((p3, ranged(start, op, end)))
                    },
                }
            },
        },
    }
}

/// The range node that optional bounds around a range operator make.
pub open spec fn ranged(start: Option<Node<ExprV>>, op: Node<OpRange>, end: Option<Node<ExprV>>) -> Node<
    ExprV,
> {
    match (start, end) {
        (Some(start), Some(end)) => node(
            start.span.hull(end.span),
            ExprV::Range(
                match *op.data {
                    OpRange::RANGE => RangeV::Range { start, end },
                    OpRange::RANGEI => RangeV::RangeI { start, end },
                },
            ),
        ),
        (Some(start), None) => node(
            start.span.hull(op.span),
            ExprV::Range(RangeV::RangeFrom { start }),
        ),
        (None, Some(end)) => node(
            op.span.hull(end.span),
            ExprV::Range(
                match *op.data {
                    OpRange::RANGE => RangeV::RangeTo { end },
                    OpRange::RANGEI => RangeV::RangeToI { end },
                },
            ),
        ),
        (None, None) => node(op.span, ExprV::Range(RangeV::RangeFull)),
    }
}

/// `a_expr := m_expr [adds a_expr]`
pub open spec fn a_expr(ts: Tokens, pos: nat) -> SResult<Node<ExprV>>
    decreases ts.len() - pos, 8nat,
{
    match m_expr(ts, pos) {
        Err(e) => Err(e),
        Ok((p1, lhs)) => match adds(ts, p1) {
            Err(_) => Ok((p1, lhs)),
            Ok((p2, op)) => if !ahead(ts, pos, p2) {
                stuck()
            } else {
                or_left(p1, lhs, arith_with(lhs, op, a_expr(ts, p2)))
            },
        },
    }
}

/// `m_expr := p_expr [muls m_expr]`
pub open spec fn m_expr(ts: Tokens, pos: nat) -> SResult<Node<ExprV>>
    decreases ts.len() - pos, 7nat,
{
    match p_expr(ts, pos) {
        Err(e) => Err(e),
        Ok((p1, lhs)) => match muls(ts, p1) {
            Err(_) => Ok((p1, lhs)),
            Ok((p2, op)) => if !ahead(ts, pos, p2) {
                stuck()
            } else {
                or_left(p1, lhs, arith_with(lhs, op, m_expr(ts, p2)))
            },
        },
    }
}

/// `p_expr := u_expr [pow p_expr]`
pub open spec fn p_expr(ts: Tokens, pos: nat) -> SResult<Node<ExprV>>
    decreases ts.len() - pos, 6nat,
{
    match u_expr(ts, pos) {
        Err(e) => Err(e),
        Ok((p1, lhs)) => match pow(ts, p1) {
            Err(_) => Ok((p1, lhs)),
            Ok((p2, op)) => if !ahead(ts, pos, p2) {
                stuck()
            } else {
                or_left(p1, lhs, arith_with(lhs, op, p_expr(ts, p2)))
            },
        },
    }
}

/// `u_expr := [adds] coefficient`: at most one sign.
pub open spec fn u_expr(ts: Tokens, pos: nat) -> SResult<Node<ExprV>>
    decreases ts.len() - pos, 5nat,
{
    match adds(ts, pos) {
        Err(_) => coefficient(ts, pos),
        Ok((p1, op)) => match coefficient(ts, p1) {
            Ok((p2, rhs)) => Ok((p2, node(op.span.hull(rhs.span), ExprV::Unary(op, rhs)))),
            Err(e) => Err(e),
        },
    }
}

/// `coefficient := [numeric_literal] [die]`, not both absent.
pub open spec fn coefficient(ts: Tokens, pos: nat) -> SResult<Node<ExprV>>
    decreases ts.len() - pos, 4nat,
{
    match numeric_literal(ts, pos) {
        Ok((p1, lhs)) => match opt(p1, die(ts, p1)) {
            Err(e) => Err(e),
            Ok((p2, Some(rhs))) => Ok(
                (p2, node(lhs.span.hull(rhs.span), ExprV::Coefficient(lhs, rhs))),
            ),
            Ok((p2, None)) => Ok((p2, atom_expr(lhs))),
        },
        Err(_) => match opt(pos, die(ts, pos)) {
            Err(e) => Err(e),
            Ok((p2, Some(rhs))) => Ok((p2, rhs)),
            Ok((p2, None)) => no_match(ts, p2),
        },
    }
}

/// `die := DIE numeric_literal | expr_node`
pub open spec fn die(ts: Tokens, pos: nat) -> SResult<Node<ExprV>>
    decreases ts.len() - pos, 3nat,
{
    if tag_at(ts, pos, TokenV::DIE) && numeric_literal(ts, pos + 1) is Ok {
        let rhs = numeric_literal(ts, pos + 1).unwrap().1;
        Ok((pos + 2, node(ts[pos as int].span.hull(rhs.span), ExprV::Die(rhs))))
    } else {
        expr_node(ts, pos)
    }
}

/// `expr_node := primary`, as an expression.
pub open spec fn expr_node(ts: Tokens, pos: nat) -> SResult<Node<ExprV>>
    decreases ts.len() - pos, 2nat,
{
    match primary(ts, pos) {
        Ok((p, val)) => Ok((p, primary_expr(val))),
        Err(e) => Err(e),
    }
}

/// `primary := atom suffix*`, each suffix wrapping what stands to its left.
pub open spec fn primary(ts: Tokens, pos: nat) -> SResult<Node<PrimaryV>>
    decreases ts.len() - pos, 1nat,
{
    match atom(ts, pos) {
        Err(e) => Err(e),
        Ok((p1, a)) => if !ahead(ts, pos, p1) {
            stuck()
        } else {
            primary_tail(ts, p1, atom_primary(a))
        },
    }
}

/// One suffix of a postfix chain, in the model.
pub enum SuffixV {
    Attribute(Node<Seq<char>>),
    Subscription(Seq<Node<ExprV>>),
    Call(Node<Seq<Node<ListItemV>>>),
}

/// `lhs` with one suffix behind it: the new node spans from `lhs` to the
/// token that closes the suffix, whose span the suffix carries.
pub open spec fn attach(lhs: Node<PrimaryV>, s: Node<SuffixV>) -> Node<PrimaryV> {
    node(
        lhs.span.hull(s.span),
        match *s.data {
            SuffixV::Attribute(name) => PrimaryV::Attribute(lhs, name),
            SuffixV::Subscription(items) => PrimaryV::Subscription(lhs, items),
            SuffixV::Call(args) => PrimaryV::Call(lhs, args),
        },
    )
}

/// The suffixes that follow `lhs` at `pos`, folded onto it from the left.
pub open spec fn primary_tail(ts: Tokens, pos: nat, lhs: Node<PrimaryV>) -> SResult<Node<PrimaryV>>
    decreases ts.len() - pos, 1nat,
{
    match suffix(ts, pos) {
        Err(KError::Error(_)) => Ok((pos, lhs)),
        Err(KError::Failure(e)) => Err(KError::Failure(e)),
        Ok((p1, s)) => if !ahead(ts, pos, p1) {
            stuck()
        } else {
            primary_tail(ts, p1, attach(lhs, s))
        },
    }
}

/// `suffix := "." Id | "[" [expr ("," expr)*] "]" | "(" [item ("," item)*] ")"`
///
/// The suffix is read under the span of its last token. The arguments of a
/// call span from the opening to the closing parenthesis.
pub open spec fn suffix(ts: Tokens, pos: nat) -> SResult<Node<SuffixV>>
    decreases ts.len() - pos, 0nat,
{
    if tag_at(ts, pos, TokenV::DOT) {
        if pos + 1 < ts.len() && *ts[(pos + 1) as int].data is Id {
            let name = ts[(pos + 1) as int];
            Ok((pos + 2, node(name.span, SuffixV::Attribute(node(name.span, name.data->Id_0)))))
        } else {
            no_match(ts, pos + 1)
        }
    } else if tag_at(ts, pos, TokenV::LBRACKET) {
        match expr_items(ts, pos + 1) {
            Err(e) => Err(e),
            Ok((p1, items)) => if tag_at(ts, p1, TokenV::RBRACKET) {
                Ok((p1 + 1, node(ts[p1 as int].span, SuffixV::Subscription(items))))
            } else {
                no_match(ts, p1)
            },
        }
    } else if tag_at(ts, pos, TokenV::LPAREN) {
        match list_items(ts, pos + 1) {
            Err(e) => Err(e),
            Ok((p1, items)) => if tag_at(ts, p1, TokenV::RPAREN) {
                let close = ts[p1 as int].span;
                Ok(
                    (
                        p1 + 1,
                        node(close, SuffixV::Call(node(ts[pos as int].span.hull(close), items))),
                    ),
                )
            } else {
                no_match(ts, p1)
            },
        }
    } else {
        no_match(ts, pos)
    }
}

/// `atom := Id | String | Boolean | NULL | "(" items ")" | "[" items "]" | "{" dict_items "}"`
///
/// Exactly one item in parentheses is a parenthesised item; none, or two
/// and more, make a tuple. A bracketed atom spans from its opening to its
/// closing token.
pub open spec fn atom(ts: Tokens, pos: nat) -> SResult<Node<AtomV>>
    decreases ts.len() - pos, 0nat,
{
    if pos >= ts.len() {
        no_match(ts, pos)
    } else {
        let open = ts[pos as int].span;
        match *ts[pos as int].data {
            TokenV::Id(x) => Ok((pos + 1, node(open, AtomV::Id(x)))),
            TokenV::String(x) => Ok((pos + 1, node(open, AtomV::String(x)))),
            TokenV::Boolean(b) => Ok((pos + 1, node(open, AtomV::Boolean(b)))),
            TokenV::NULL => Ok((pos + 1, node(open, AtomV::Null))),
            TokenV::LPAREN => paren_rest(ts, pos + 1, open),
            TokenV::LBRACKET => list_rest(ts, pos + 1, open),
            TokenV::LBRACE => dict_rest(ts, pos + 1, open),
            _ => no_match(ts, pos),
        }
    }
}

/// `items ")"`, behind an opening parenthesis of span `open`.
pub open spec fn paren_rest(ts: Tokens, pos: nat, open: Span) -> SResult<Node<AtomV>>
    decreases ts.len() - pos, 21nat,
{
    match list_items(ts, pos) {
        Err(e) => Err(e),
        Ok((p1, items)) => if tag_at(ts, p1, TokenV::RPAREN) {
            Ok((p1 + 1, node(open.hull(ts[p1 as int].span), grouped(items))))
        } else {
            no_match(ts, p1)
        },
    }
}

/// `items "]"`, behind an opening bracket of span `open`.
pub open spec fn list_rest(ts: Tokens, pos: nat, open: Span) -> SResult<Node<AtomV>>
    decreases ts.len() - pos, 21nat,
{
    match list_items(ts, pos) {
        Err(e) => Err(e),
        Ok((p1, items)) => if tag_at(ts, p1, TokenV::RBRACKET) {
            Ok((p1 + 1, node(open.hull(ts[p1 as int].span), AtomV::ListDisplay(items))))
        } else {
            no_match(ts, p1)
        },
    }
}

/// `dict_items "}"`, behind an opening brace of span `open`.
pub open spec fn dict_rest(ts: Tokens, pos: nat, open: Span) -> SResult<Node<AtomV>>
    decreases ts.len() - pos, 21nat,
{
    match dict_items(ts, pos) {
        Err(e) => Err(e),
        Ok((p1, items)) => if tag_at(ts, p1, TokenV::RBRACE) {
            Ok((p1 + 1, node(open.hull(ts[p1 as int].span), AtomV::DictDisplay(items))))
        } else {
            no_match(ts, p1)
        },
    }
}

/// What stands between parentheses: exactly one item is a parenthesised
/// item, any other number of items is a tuple.
pub open spec fn grouped(items: Seq<Node<ListItemV>>) -> AtomV {
    if items.len() == 1 {
        AtomV::Paren(items[0])
    } else {
        AtomV::Tuple(items)
    }
}

/// A primary expression, as an expression under the same span.
pub open spec fn primary_expr(val: Node<PrimaryV>) -> Node<ExprV> {
    node(val.span, ExprV::Primary(*val.data))
}

/// An atom, as an expression under the same span.
pub open spec fn atom_expr(val: Node<AtomV>) -> Node<ExprV> {
    node(val.span, ExprV::Primary(PrimaryV::Atom(*val.data)))
}

/// An atom, as the start of a postfix chain.
pub open spec fn atom_primary(val: Node<AtomV>) -> Node<PrimaryV> {
    node(val.span, PrimaryV::Atom(*val.data))
}

/// An expression, as a plain item under the same span.
pub open spec fn plain_item(e: Node<ExprV>) -> Node<ListItemV> {
    node(e.span, ListItemV::Expr(*e.data))
}

/// `item := "..." expr | expr`
pub open spec fn list_item(ts: Tokens, pos: nat) -> SResult<Node<ListItemV>>
    decreases ts.len() - pos, 19nat,
{
    if tag_at(ts, pos, TokenV::SPREAD) {
        match expr(ts, pos + 1) {
            Ok((p, e)) => Ok((p, node(ts[pos as int].span.hull(e.span), ListItemV::Spread(e)))),
            Err(e) => Err(e),
        }
    } else {
        match expr(ts, pos) {
            Ok((p, e)) => Ok((p, plain_item(e))),
            Err(e) => Err(e),
        }
    }
}

/// `dict_item := "..." expr | Id ":" expr | Id`
pub open spec fn dict_item(ts: Tokens, pos: nat) -> SResult<Node<DictItemV>>
    decreases ts.len() - pos, 19nat,
{
    if tag_at(ts, pos, TokenV::SPREAD) {
        match expr(ts, pos + 1) {
            Ok((p, e)) => Ok((p, node(ts[pos as int].span.hull(e.span), DictItemV::Spread(e)))),
            Err(e) => Err(e),
        }
    } else if pos < ts.len() && *ts[pos as int].data is Id {
        let key = node(ts[pos as int].span, ts[pos as int].data->Id_0);
        if tag_at(ts, pos + 1, TokenV::COLON) {
            match expr(ts, pos + 2) {
                Ok((p, e)) => Ok(
                    (p, node(key.span.hull(e.span), DictItemV::KeyVal { key, val: e })),
                ),
                Err(e) => Err(e),
            }
        } else {
            Ok((pos + 1, node(key.span, DictItemV::Shorthand(*key.data))))
        }
    } else {
        no_match(ts, pos)
    }
}

/// `[expr ("," expr)*]`: none where no expression stands at `pos`.
pub open spec fn expr_items(ts: Tokens, pos: nat) -> SResult<Seq<Node<ExprV>>>
    decreases ts.len() - pos, 20nat,
{
    match expr(ts, pos) {
        Err(KError::Error(_)) => Ok((pos, Seq::empty())),
        Err(KError::Failure(e)) => Err(KError::Failure(e)),
        Ok((p1, x)) => if !ahead(ts, pos, p1) {
            stuck()
        } else {
            more_expr_items(ts, p1, seq![x])
        },
    }
}

/// The expressions that follow `acc` at `pos`, each behind a comma; a comma
/// that no expression follows is left unread.
pub open spec fn more_expr_items(ts: Tokens, pos: nat, acc: Seq<Node<ExprV>>) -> SResult<
    Seq<Node<ExprV>>,
>
    decreases ts.len() - pos, 20nat,
{
    if !tag_at(ts, pos, TokenV::COMMA) {
        Ok((pos, acc))
    } else {
        match expr(ts, pos + 1) {
            Err(KError::Error(_)) => Ok((pos, acc)),
            Err(KError::Failure(e)) => Err(KError::Failure(e)),
            Ok((p1, x)) => if !ahead(ts, pos, p1) {
                stuck()
            } else {
                more_expr_items(ts, p1, acc.push(x))
            },
        }
    }
}

/// `[item ("," item)*]`: none where no item stands at `pos`.
pub open spec fn list_items(ts: Tokens, pos: nat) -> SResult<Seq<Node<ListItemV>>>
    decreases ts.len() - pos, 20nat,
{
    match list_item(ts, pos) {
        Err(KError::Error(_)) => Ok((pos, Seq::empty())),
        Err(KError::Failure(e)) => Err(KError::Failure(e)),
        Ok((p1, x)) => if !ahead(ts, pos, p1) {
            stuck()
        } else {
            more_list_items(ts, p1, seq![x])
        },
    }
}

/// The items that follow `acc` at `pos`, each behind a comma; a comma that
/// no item follows is left unread.
pub open spec fn more_list_items(ts: Tokens, pos: nat, acc: Seq<Node<ListItemV>>) -> SResult<
    Seq<Node<ListItemV>>,
>
    decreases ts.len() - pos, 20nat,
{
    if !tag_at(ts, pos, TokenV::COMMA) {
        Ok((pos, acc))
    } else {
        match list_item(ts, pos + 1) {
            Err(KError::Error(_)) => Ok((pos, acc)),
            Err(KError::Failure(e)) => Err(KError::Failure(e)),
            Ok((p1, x)) => if !ahead(ts, pos, p1) {
                stuck()
            } else {
                more_list_items(ts, p1, acc.push(x))
            },
        }
    }
}

/// `[dict_item ("," dict_item)*]`: none where no item stands at `pos`.
pub open spec fn dict_items(ts: Tokens, pos: nat) -> SResult<Seq<Node<DictItemV>>>
    decreases ts.len() - pos, 20nat,
{
    match dict_item(ts, pos) {
        Err(KError::Error(_)) => Ok((pos, Seq::empty())),
        Err(KError::Failure(e)) => Err(KError::Failure(e)),
        Ok((p1, x)) => if !ahead(ts, pos, p1) {
            stuck()
        } else {
            more_dict_items(ts, p1, seq![x])
        },
    }
}

/// The items that follow `acc` at `pos`, each behind a comma; a comma that
/// no item follows is left unread.
pub open spec fn more_dict_items(ts: Tokens, pos: nat, acc: Seq<Node<DictItemV>>) -> SResult<
    Seq<Node<DictItemV>>,
>
    decreases ts.len() - pos, 20nat,
{
    if !tag_at(ts, pos, TokenV::COMMA) {
        Ok((pos, acc))
    } else {
        match dict_item(ts, pos + 1) {
            Err(KError::Error(_)) => Ok((pos, acc)),
            Err(KError::Failure(e)) => Err(KError::Failure(e)),
            Ok((p1, x)) => if !ahead(ts, pos, p1) {
                stuck()
            } else {
                more_dict_items(ts, p1, acc.push(x))
            },
        }
    }
}

} // verus!
