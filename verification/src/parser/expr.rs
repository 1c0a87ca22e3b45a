use super::make;
use super::error::{ErrorKind, KError};
use super::grammar;
use super::input::{agrees, ordered, token_tag, tokens_view, Input, KResult};
use super::primary::{agrees_items, exprs_of, numeric_literal, primary};
use crate::ast::{Expr, OpArith, OpEqs, OpRange, Target};
use crate::ast::model::{expr_nodes_view, node};
use crate::ast::spans::nested;
use crate::ast::tokens::tokens_of;
use crate::laws::sound::lemma_expr;
use crate::laws::support::{consumed, cover, kinds};
use crate::laws::trees::{law_no_runtime_error, law_parsed_spans_nested, law_parsed_tokens};
use crate::token::{lemma_tag_models, Token, TokenV};
use crate::types::{Node, ONode, Span};
use vstd::prelude::*;

verus! {

/// Skips the run of delimiters under the cursor, and returns them.
fn delims<'a>(i: Input<'a>) -> (r: (Input<'a>, Vec<&'a Node<Token>>))
    ensures
        r.0.tokens() == i.tokens(),
        r.0.pos() == grammar::delims(i.tokens(), i.pos()),
        i.pos() <= r.0.pos() <= i.tokens().len(),
        Span::spans_of_refs(r.1@) == grammar::spans_between(i.tokens(), i.pos(), r.0.pos()),
        !grammar::tag_at(i.tokens(), r.0.pos(), TokenV::DELIM),
{
    proof {
        lemma_tag_models();
    }
    let mut cur = i;
    let mut seen: Vec<&'a Node<Token>> = Vec::new();
    let _ = i.is_empty();
    proof {
        assert(Span::spans_of_refs(seen@) =~= grammar::spans_between(
            i.tokens(),
            i.pos(),
            cur.pos(),
        ));
    }
    loop
        invariant
            cur.tokens() == i.tokens(),
            i.pos() <= cur.pos() <= i.tokens().len(),
            grammar::delims(i.tokens(), i.pos()) == grammar::delims(i.tokens(), cur.pos()),
            Span::spans_of_refs(seen@) == grammar::spans_between(i.tokens(), i.pos(), cur.pos()),
        decreases cur.remaining(),
    {
        match token_tag(cur, &Token::DELIM) {
            Ok((next, t)) => {
                proof {
                    let before = Span::spans_of_refs(seen@);
                    let after = Span::spans_of_refs(seen@.push(t));
                    let want = grammar::spans_between(i.tokens(), i.pos(), next.pos());
                    assert(t@.span == t.span);
                    assert(before.len() == seen@.len());
                    assert(grammar::spans_between(i.tokens(), i.pos(), cur.pos()).len()
                        == cur.pos() - i.pos());
                    assert(after.len() == seen@.len() + 1);
                    assert(want.len() == next.pos() - i.pos());
                    assert(after.len() == want.len());
                    assert forall|k: int| 0 <= k < after.len() implies after[k] == want[k] by {
                        if k < before.len() {
                            assert(seen@.push(t)[k] == seen@[k]);
                            assert(after[k] == before[k]);
                        } else {
                            assert(seen@.push(t)[k] == t);
                        }
                    }
                    assert(after =~= want);
                }
                seen.push(t);
                cur = next;
            },
            Err(_) => {
                return (cur, seen);
            },
        }
    }
}

/// Expressions separated by runs of delimiters, possibly none.
fn lines<'a>(i: Input<'a>) -> (r: KResult<'a, Vec<Node<Expr>>>)
    ensures
        agrees_items(i, r, exprs_of(r), grammar::lines(i.tokens(), i.pos())),
{
    proof {
        lemma_tag_models();
    }
    let mut items: Vec<Node<Expr>> = Vec::new();
    let (first_end, first) = match expr(i) {
        Ok(x) => x,
        Err(KError::Error(_)) => {
            let _ = i.is_empty();
            assert(expr_nodes_view(items@) =~= Seq::empty());
            return Ok((i, items));
        },
        Err(e) => {
            return Err(e);
        },
    };
    let mut cur = first_end;
    items.push(first);
    assert(expr_nodes_view(items@) =~= seq![first@]);
    loop
        invariant
            cur.tokens() == i.tokens(),
            i.pos() < cur.pos() <= i.tokens().len(),
            grammar::lines(i.tokens(), i.pos()) == grammar::more_lines(
                i.tokens(),
                cur.pos(),
                expr_nodes_view(items@),
            ),
        decreases cur.remaining(),
    {
        if token_tag(cur, &Token::DELIM).is_err() {
            return Ok((cur, items));
        }
        let (after, _) = delims(cur);
        assert(after.pos() > cur.pos()) by {
            assert(grammar::delims(i.tokens(), cur.pos()) == grammar::delims(
                i.tokens(),
                cur.pos() + 1,
            ));
            lemma_delims_ahead(i.tokens(), cur.pos() + 1);
        }
        match expr(after) {
            Ok((j, x)) => {
                assert(expr_nodes_view(items@.push(x)) =~= expr_nodes_view(items@).push(x@));
                items.push(x);
                cur = j;
            },
            Err(KError::Error(_)) => {
                return Ok((cur, items));
            },
            Err(e) => {
                return Err(e);
            },
        }
    }
}

/// A run of delimiters ends at or behind where it starts, inside the
/// input.
pub proof fn lemma_delims_ahead(ts: grammar::Tokens, pos: nat)
    requires
        pos <= ts.len(),
    ensures
        pos <= grammar::delims(ts, pos) <= ts.len(),
    decreases ts.len() - pos,
{
    if grammar::tag_at(ts, pos, TokenV::DELIM) {
        lemma_delims_ahead(ts, pos + 1);
    }
}

/// The model of a list of expressions under one span.
pub open spec fn list_view(n: Node<Vec<Node<Expr>>>) -> Node<Seq<Node<crate::ast::ExprV>>> {
    node(n.span, expr_nodes_view(n.data@))
}

/// Any number of expressions, separated and surrounded by delimiters;
/// `None` at the end of the input.
pub fn expr_list0<'a>(i: Input<'a>) -> (r: KResult<'a, Option<Node<Vec<Node<Expr>>>>>)
    ensures
        match r {
            Ok((j, list)) => {
                &&& j.tokens() == i.tokens()
                &&& i.pos() <= j.pos() <= i.tokens().len()
                &&& grammar::expr_list0(i.tokens(), i.pos()) == Ok::<_, KError>(
                    (
                        j.pos(),
                        match list {
                            Some(n) => Some(list_view(n)),
                            None => None,
                        },
                    ),
                )
            },
            Err(e) => grammar::expr_list0(i.tokens(), i.pos()) == Err::<
                (nat, Option<Node<Seq<Node<crate::ast::ExprV>>>>),
                _,
            >(e),
        },
{
    let first = match i.head() {
        Some(t) => t,
        None => {
            return Ok((i, None));
        },
    };
    let (i1, _lhs) = delims(i);
    let (i2, val) = lines(i1)?;
    let (i3, _rhs) = delims(i2);
    let span = match Span::reduce(&val) {
        Some(span) => span,
        None => Span {
            start: first.span.start,
            end: match i3.head() {
                Some(next) => next.span.start,
                None => first.span.end,
            },
        },
    };
    proof {
        assert(Span::spans_of(val@) =~= grammar::spans_of_nodes(expr_nodes_view(val@)));
    }
    Ok((i3, Some(make_list(span, val))))
}

/// An expression, at least one delimiter, and any number of expressions
/// more; delimiters may stand in front and behind.
pub fn expr_list1<'a>(i: Input<'a>) -> (r: KResult<'a, Node<Vec<Node<Expr>>>>)
    ensures
        match r {
            Ok((j, list)) => {
                &&& j.tokens() == i.tokens()
                &&& i.pos() < j.pos() <= i.tokens().len()
                &&& grammar::expr_list1(i.tokens(), i.pos()) == Ok::<_, KError>(
                    (j.pos(), list_view(list)),
                )
            },
            Err(e) => grammar::expr_list1(i.tokens(), i.pos()) == Err::<
                (nat, Node<Seq<Node<crate::ast::ExprV>>>),
                _,
            >(e),
        },
{
    proof {
        lemma_tag_models();
    }
    let (i1, lhs) = delims(i);
    let (ih, head) = expr(i1)?;
    if token_tag(ih, &Token::DELIM).is_err() {
        return ih.no_match();
    }
    let (i2, _sep) = delims(ih);
    let (i3, val) = lines(i2)?;
    let (i4, rhs) = delims(i3);
    let head_span = head.span;
    let all = prepend(head, val);
    let span = list_span1(head_span, &all, &lhs, &rhs);
    Ok((i4, make_list(span, all)))
}

/// `head` in front of `rest`.
fn prepend(head: Node<Expr>, rest: Vec<Node<Expr>>) -> (all: Vec<Node<Expr>>)
    ensures
        expr_nodes_view(all@) == seq![head@] + expr_nodes_view(rest@),
        Span::spans_of(all@) == grammar::spans_of_nodes(expr_nodes_view(all@)),
{
    let mut all = rest;
    all.insert(0, head);
    proof {
        assert(expr_nodes_view(all@) =~= seq![head@] + expr_nodes_view(rest@));
        assert(Span::spans_of(all@) =~= grammar::spans_of_nodes(expr_nodes_view(all@)));
    }
    all
}

/// The span of a list with a head: the head, widened by the hull of the
/// expressions and by the delimiters in front and behind.
fn list_span1(
    head: Span,
    all: &Vec<Node<Expr>>,
    lhs: &Vec<&Node<Token>>,
    rhs: &Vec<&Node<Token>>,
) -> (span: Span)
    ensures
        span == head.hull_with(Span::hull_seq(Span::spans_of(all@))).hull_with(
            Span::hull_seq(Span::spans_of_refs(lhs@)),
        ).hull_with(Span::hull_seq(Span::spans_of_refs(rhs@))),
{
    head + Span::reduce(all) + Span::reduce_ref(lhs) + Span::reduce_ref(rhs)
}

/// A list of expressions under one span.
fn make_list(span: Span, val: Vec<Node<Expr>>) -> (r: Node<Vec<Node<Expr>>>)
    ensures
        list_view(r) == node(span, expr_nodes_view(val@)),
{
    Node::new(span, val)
}

/// Reads the whole of `tokens` as one expression.
///
/// The tree that comes back is written with exactly the tokens given, and
/// where these are in the order of the source text it is nested and spans
/// them all. An error is always of kind `Grammar`.
pub fn parse(tokens: &[Node<Token>]) -> (r: Result<Node<Expr>, ONode<ErrorKind>>)
    ensures
        match r {
            Ok(n) => grammar::parse(tokens_view(tokens@)) == Ok::<_, ONode<ErrorKind>>(n@),
            Err(e) => grammar::parse(tokens_view(tokens@)) == Err::<Node<crate::ast::ExprV>, _>(e),
        },
        r matches Ok(n) ==> tokens_of(n@) == kinds(tokens_view(tokens@)),
        r matches Ok(n) ==> ordered(tokens_view(tokens@)) ==> nested(n@) && n.span == cover(
            tokens_view(tokens@),
            0,
            tokens@.len(),
        ),
        r matches Err(e) ==> *e.data == ErrorKind::Grammar,
{
    proof {
        let ts = tokens_view(tokens@);
        law_no_runtime_error(ts, 0);
        if grammar::parse(ts) is Ok {
            law_parsed_tokens(ts);
            if ordered(ts) {
                law_parsed_spans_nested(ts);
            }
        }
    }
    let i = Input::new(tokens);
    match expr(i) {
        Ok((rest, n)) => {
            if rest.is_empty() {
                Ok(n)
            } else {
                Err(ONode::new(rest.head_span(), ErrorKind::Grammar))
            }
        },
        Err(KError::Failure(e)) => Err(e),
        Err(KError::Error(_)) => Err(ONode::new(i.head_span(), ErrorKind::Grammar)),
    }
}

/// An expression: the entry of the grammar.
///
/// The expression is written with exactly the tokens consumed; where the
/// input is in the order of the source text it is nested and spans those
/// tokens. An error is always of kind `Grammar`.
pub fn expr<'a>(i: Input<'a>) -> (r: KResult<'a, Node<Expr>>)
    ensures
        agrees(i, r, grammar::expr(i.tokens(), i.pos())),
        r matches Ok((j, n)) ==> tokens_of(n@) == consumed(i.tokens(), i.pos(), j.pos()),
        r matches Ok((j, n)) ==> ordered(i.tokens()) ==> nested(n@) && n.span == cover(
            i.tokens(),
            i.pos(),
            j.pos(),
        ),
        r matches Err(e) ==> e.kind() == ErrorKind::Grammar,
    decreases i.remaining(), 18nat,
{
    proof {
        lemma_expr(i.tokens(), i.pos());
    }
    assignment_expr(i)
}

/// A conditional expression, or a pattern bound by `:=` to what stands
/// behind it; `:=` groups to the right.
pub fn assignment_expr<'a>(i: Input<'a>) -> (r: KResult<'a, Node<Expr>>)
    ensures
        agrees(i, r, grammar::assignment_expr(i.tokens(), i.pos())),
    decreases i.remaining(), 17nat,
{
    proof {
        lemma_tag_models();
    }
    let (i1, lhs) = conditional_expr(i)?;
    match token_tag(i1, &Token::ASSIGNE) {
        Ok((i2, op)) => match Node::<Target>::try_from_expr(lhs) {
            Ok(target) => {
                let (i3, rhs) = assignment_expr(i2)?;
                Ok((i3, make::assign(target, rhs)))
            },
            Err(_) => Err(KError::failure(Some(op.span), ErrorKind::Grammar)),
        },
        Err(_) => Ok((i1, lhs)),
    }
}

/// The first control-flow or lambda form that matches. All of them read
/// what `lambda_expr` reads, so one attempt decides for all.
pub fn conditional_expr<'a>(i: Input<'a>) -> (r: KResult<'a, Node<Expr>>)
    ensures
        agrees(i, r, grammar::conditional_expr(i.tokens(), i.pos())),
    decreases i.remaining(), 16nat,
{
    if_expr(i)
}

/// Reserved for `if`: reads what `lambda_expr` reads.
pub fn if_expr<'a>(i: Input<'a>) -> (r: KResult<'a, Node<Expr>>)
    ensures
        agrees(i, r, grammar::if_expr(i.tokens(), i.pos())),
    decreases i.remaining(), 15nat,
{
    lambda_expr(i)
}

/// Reserved for `match`: reads what `lambda_expr` reads.
pub fn match_expr<'a>(i: Input<'a>) -> (r: KResult<'a, Node<Expr>>)
    ensures
        agrees(i, r, grammar::match_expr(i.tokens(), i.pos())),
    decreases i.remaining(), 15nat,
{
    lambda_expr(i)
}

/// Reserved for `for`: reads what `lambda_expr` reads.
pub fn for_expr<'a>(i: Input<'a>) -> (r: KResult<'a, Node<Expr>>)
    ensures
        agrees(i, r, grammar::for_expr(i.tokens(), i.pos())),
    decreases i.remaining(), 15nat,
{
    lambda_expr(i)
}

/// Reserved for `while`: reads what `lambda_expr` reads.
pub fn while_expr<'a>(i: Input<'a>) -> (r: KResult<'a, Node<Expr>>)
    ensures
        agrees(i, r, grammar::while_expr(i.tokens(), i.pos())),
    decreases i.remaining(), 15nat,
{
    lambda_expr(i)
}

/// Reserved for `loop`: reads what `lambda_expr` reads.
pub fn loop_expr<'a>(i: Input<'a>) -> (r: KResult<'a, Node<Expr>>)
    ensures
        agrees(i, r, grammar::loop_expr(i.tokens(), i.pos())),
    decreases i.remaining(), 15nat,
{
    lambda_expr(i)
}

/// Reserved for functions: reads a disjunction.
pub fn lambda_expr<'a>(i: Input<'a>) -> (r: KResult<'a, Node<Expr>>)
    ensures
        agrees(i, r, grammar::lambda_expr(i.tokens(), i.pos())),
    decreases i.remaining(), 14nat,
{
    or_test(i)
}

/// A disjunction; `or` groups to the right.
pub fn or_test<'a>(i: Input<'a>) -> (r: KResult<'a, Node<Expr>>)
    ensures
        agrees(i, r, grammar::or_test(i.tokens(), i.pos())),
    decreases i.remaining(), 13nat,
{
    proof {
        lemma_tag_models();
    }
    let (i1, lhs) = and_test(i)?;
    match token_tag(i1, &Token::OR) {
        Ok((i2, _)) => match or_test(i2) {
            Ok((i3, rhs)) => Ok((i3, make::or(lhs, rhs))),
            Err(KError::Error(_)) => Ok((i1, lhs)),
            Err(e) => Err(e),
        },
        Err(_) => Ok((i1, lhs)),
    }
}

/// A conjunction; `and` groups to the right.
pub fn and_test<'a>(i: Input<'a>) -> (r: KResult<'a, Node<Expr>>)
    ensures
        agrees(i, r, grammar::and_test(i.tokens(), i.pos())),
    decreases i.remaining(), 12nat,
{
    proof {
        lemma_tag_models();
    }
    let (i1, lhs) = not_test(i)?;
    match token_tag(i1, &Token::AND) {
        Ok((i2, _)) => match and_test(i2) {
            Ok((i3, rhs)) => Ok((i3, make::and(lhs, rhs))),
            Err(KError::Error(_)) => Ok((i1, lhs)),
            Err(e) => Err(e),
        },
        Err(_) => Ok((i1, lhs)),
    }
}

/// A comparison, negated by at most one `not` in front of it.
pub fn not_test<'a>(i: Input<'a>) -> (r: KResult<'a, Node<Expr>>)
    ensures
        agrees(i, r, grammar::not_test(i.tokens(), i.pos())),
    decreases i.remaining(), 11nat,
{
    proof {
        lemma_tag_models();
    }
    match token_tag(i, &Token::NOT) {
        Ok((i1, op)) => {
            let (i2, rhs) = c_expr(i1)?;
            Ok((i2, make::not(op.span, rhs)))
        },
        Err(_) => c_expr(i),
    }
}

/// One comparison operator and its right operand.
fn c_tail<'a>(i: Input<'a>) -> (r: KResult<'a, (Node<OpEqs>, Node<Expr>)>)
    ensures
        agrees(i, r, grammar::c_tail(i.tokens(), i.pos())),
    decreases i.remaining(), 0nat,
{
    let (i1, op) = eqs(i)?;
    let (i2, rhs) = r_expr(i1)?;
    Ok((i2, (op, rhs)))
}

/// A range expression, compared with up to two others: one comparison
/// makes a `Compare`, two make a `CompareBound`.
pub fn c_expr<'a>(i: Input<'a>) -> (r: KResult<'a, Node<Expr>>)
    ensures
        agrees(i, r, grammar::c_expr(i.tokens(), i.pos())),
    decreases i.remaining(), 10nat,
{
    let (i1, lhs) = r_expr(i)?;
    let (i2, val) = match c_tail(i1) {
        Ok((i2, x)) => (i2, Some(x)),
        Err(KError::Error(_)) => (i1, None),
        Err(e) => {
            return Err(e);
        },
    };
    let (i3, rhs) = match c_tail(i2) {
        Ok((i3, x)) => (i3, Some(x)),
        Err(KError::Error(_)) => (i2, None),
        Err(e) => {
            return Err(e);
        },
    };
    Ok((i3, make::compared(lhs, val, rhs)))
}

/// An arithmetic expression, or one of the six range shapes around a range
/// operator.
pub fn r_expr<'a>(i: Input<'a>) -> (r: KResult<'a, Node<Expr>>)
    ensures
        agrees(i, r, grammar::r_expr(i.tokens(), i.pos())),
    decreases i.remaining(), 9nat,
{
    let _ = i.is_empty();
    let (i1, start) = match a_expr(i) {
        Ok((i1, x)) => (i1, Some(x)),
        Err(KError::Error(_)) => (i, None),
        Err(e) => {
            return Err(e);
        },
    };
    let (i2, op) = match ranges(i1) {
        Ok(x) => x,
        Err(_) => {
            return match start {
                Some(lhs) => Ok((i1, lhs)),
                None => i1.no_match(),
            };
        },
    };
    let (i3, end) = match a_expr(i2) {
        Ok((i3, x)) => (i3, Some(x)),
        Err(KError::Error(_)) => (i2, None),
        Err(e) => {
            return Err(e);
        },
    };
    if end.is_none() && *op.data == OpRange::RANGEI {
        return Err(KError::failure(Some(op.span), ErrorKind::Grammar));
    }
    Ok((i3, make::ranged(start, op, end)))
}

/// A sum or difference; the operators group to the right.
pub fn a_expr<'a>(i: Input<'a>) -> (r: KResult<'a, Node<Expr>>)
    ensures
        agrees(i, r, grammar::a_expr(i.tokens(), i.pos())),
    decreases i.remaining(), 8nat,
{
    let (i1, lhs) = m_expr(i)?;
    match adds(i1) {
        Ok((i2, op)) => match a_expr(i2) {
            Ok((i3, rhs)) => Ok((i3, make::arith(lhs, op, rhs))),
            Err(KError::Error(_)) => Ok((i1, lhs)),
            Err(e) => Err(e),
        },
        Err(_) => Ok((i1, lhs)),
    }
}

/// A product, quotient or remainder; the operators group to the right.
pub fn m_expr<'a>(i: Input<'a>) -> (r: KResult<'a, Node<Expr>>)
    ensures
        agrees(i, r, grammar::m_expr(i.tokens(), i.pos())),
    decreases i.remaining(), 7nat,
{
    let (i1, lhs) = p_expr(i)?;
    match muls(i1) {
        Ok((i2, op)) => match m_expr(i2) {
            Ok((i3, rhs)) => Ok((i3, make::arith(lhs, op, rhs))),
            Err(KError::Error(_)) => Ok((i1, lhs)),
            Err(e) => Err(e),
        },
        Err(_) => Ok((i1, lhs)),
    }
}

/// A power; the operator groups to the right.
pub fn p_expr<'a>(i: Input<'a>) -> (r: KResult<'a, Node<Expr>>)
    ensures
        agrees(i, r, grammar::p_expr(i.tokens(), i.pos())),
    decreases i.remaining(), 6nat,
{
    let (i1, lhs) = u_expr(i)?;
    match pow(i1) {
        Ok((i2, op)) => match p_expr(i2) {
            Ok((i3, rhs)) => Ok((i3, make::arith(lhs, op, rhs))),
            Err(KError::Error(_)) => Ok((i1, lhs)),
            Err(e) => Err(e),
        },
        Err(_) => Ok((i1, lhs)),
    }
}

/// A coefficient with at most one sign in front of it.
pub fn u_expr<'a>(i: Input<'a>) -> (r: KResult<'a, Node<Expr>>)
    ensures
        agrees(i, r, grammar::u_expr(i.tokens(), i.pos())),
    decreases i.remaining(), 5nat,
{
    match adds(i) {
        Ok((i1, op)) => {
            let (i2, rhs) = coefficient(i1)?;
            Ok((i2, make::unary(op, rhs)))
        },
        Err(_) => coefficient(i),
    }
}

/// A numeric literal, a die expression, or the first written directly in
/// front of the second.
pub fn coefficient<'a>(i: Input<'a>) -> (r: KResult<'a, Node<Expr>>)
    ensures
        agrees(i, r, grammar::coefficient(i.tokens(), i.pos())),
    decreases i.remaining(), 4nat,
{
    let _ = i.is_empty();
    let (i1, lhs) = match numeric_literal(i) {
        Ok((i1, x)) => (i1, Some(x)),
        Err(_) => (i, None),
    };
    let (i2, rhs) = match die(i1) {
        Ok((i2, x)) => (i2, Some(x)),
        Err(KError::Error(_)) => (i1, None),
        Err(e) => {
            return Err(e);
        },
    };
    match (lhs, rhs) {
        (Some(lhs), Some(rhs)) => Ok((i2, make::coefficient(lhs, rhs))),
        (Some(lhs), None) => Ok((i2, make::atom_expr(lhs))),
        (None, Some(rhs)) => Ok((i2, rhs)),
        (None, None) => i2.no_match(),
    }
}

/// A die with a literal number of sides, or else a primary expression.
pub fn die<'a>(i: Input<'a>) -> (r: KResult<'a, Node<Expr>>)
    ensures
        agrees(i, r, grammar::die(i.tokens(), i.pos())),
    decreases i.remaining(), 3nat,
{
    proof {
        lemma_tag_models();
    }
    match token_tag(i, &Token::DIE) {
        Ok((i1, op)) => match numeric_literal(i1) {
            Ok((i2, rhs)) => Ok((i2, make::die(op.span, rhs))),
            Err(_) => expr_node(i),
        },
        Err(_) => expr_node(i),
    }
}

/// A primary expression, as an expression.
pub fn expr_node<'a>(i: Input<'a>) -> (r: KResult<'a, Node<Expr>>)
    ensures
        agrees(i, r, grammar::expr_node(i.tokens(), i.pos())),
    decreases i.remaining(), 2nat,
{
    let (i1, val) = primary(i)?;
    Ok((i1, make::primary_expr(val)))
}

/// A comparison operator.
pub fn eqs<'a>(i: Input<'a>) -> (r: KResult<'a, Node<OpEqs>>)
    ensures
        agrees(i, r, grammar::eqs(i.tokens(), i.pos())),
{
    match i.head() {
        Some(x) => match &*x.data {
            Token::EQ => Ok((i.advance(), Node::new(x.span, OpEqs::EQ))),
            Token::NE => Ok((i.advance(), Node::new(x.span, OpEqs::NE))),
            Token::LT => Ok((i.advance(), Node::new(x.span, OpEqs::LT))),
            Token::LE => Ok((i.advance(), Node::new(x.span, OpEqs::LE))),
            Token::GT => Ok((i.advance(), Node::new(x.span, OpEqs::GT))),
            Token::GE => Ok((i.advance(), Node::new(x.span, OpEqs::GE))),
            _ => i.no_match(),
        },
        None => i.no_match(),
    }
}

/// A range operator.
pub fn ranges<'a>(i: Input<'a>) -> (r: KResult<'a, Node<OpRange>>)
    ensures
        agrees(i, r, grammar::ranges(i.tokens(), i.pos())),
{
    match i.head() {
        Some(x) => match &*x.data {
            Token::RANGE => Ok((i.advance(), Node::new(x.span, OpRange::RANGE))),
            Token::RANGEI => Ok((i.advance(), Node::new(x.span, OpRange::RANGEI))),
            _ => i.no_match(),
        },
        None => i.no_match(),
    }
}

/// An additive operator, which is also a sign.
pub fn adds<'a>(i: Input<'a>) -> (r: KResult<'a, Node<OpArith>>)
    ensures
        agrees(i, r, grammar::adds(i.tokens(), i.pos())),
{
    match i.head() {
        Some(x) => match &*x.data {
            Token::ADD => Ok((i.advance(), Node::new(x.span, OpArith::ADD))),
            Token::SUB => Ok((i.advance(), Node::new(x.span, OpArith::SUB))),
            _ => i.no_match(),
        },
        None => i.no_match(),
    }
}

/// A multiplicative operator.
pub fn muls<'a>(i: Input<'a>) -> (r: KResult<'a, Node<OpArith>>)
    ensures
        agrees(i, r, grammar::muls(i.tokens(), i.pos())),
{
    match i.head() {
        Some(x) => match &*x.data {
            Token::MOD => Ok((i.advance(), Node::new(x.span, OpArith::MOD))),
            Token::MUL => Ok((i.advance(), Node::new(x.span, OpArith::MUL))),
            Token::DIV => Ok((i.advance(), Node::new(x.span, OpArith::DIV))),
            _ => i.no_match(),
        },
        None => i.no_match(),
    }
}

/// The power operator.
pub fn pow<'a>(i: Input<'a>) -> (r: KResult<'a, Node<OpArith>>)
    ensures
        agrees(i, r, grammar::pow(i.tokens(), i.pos())),
{
    match i.head() {
        Some(x) => match &*x.data {
            Token::POW => Ok((i.advance(), Node::new(x.span, OpArith::POW))),
            _ => i.no_match(),
        },
        None => i.no_match(),
    }
}

} // verus!
