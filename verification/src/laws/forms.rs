use super::support::at;
use super::sound::{
    lemma_a_expr, lemma_c_expr, lemma_conditional_expr, lemma_m_expr, lemma_p_expr, lemma_r_expr,
    lemma_u_expr,
};
use crate::ast::model::{node, AtomV, ExprV, ListItemV, PrimaryV};
use crate::ast::op::{OpArith, OpEqs};
use crate::ast::rewrite::{target_of_atom, target_of_expr, target_of_list_item};
use crate::parser::error::{ErrorKind, KError};
use crate::parser::grammar;
use crate::parser::grammar::Tokens;
use crate::token::TokenV;
use crate::types::{Node, ONode, Span};
use vstd::prelude::*;

verus! {

/// Sums group to the right: behind `x + y +`, whatever follows is read
/// first and added to `y`, and the result is added to `x`.
pub proof fn law_sum_groups_right(
    ts: Tokens,
    pos: nat,
    p1: nat,
    p2: nat,
    p3: nat,
    x: Node<ExprV>,
    op1: Node<OpArith>,
    y: Node<ExprV>,
    op2: Node<OpArith>,
    z: Node<ExprV>,
)
    requires
        grammar::m_expr(ts, pos) == Ok::<_, KError>((p1, x)),
        grammar::adds(ts, p1) == Ok::<_, KError>(((p1 + 1) as nat, op1)),
        grammar::m_expr(ts, p1 + 1) == Ok::<_, KError>((p2, y)),
        grammar::adds(ts, p2) == Ok::<_, KError>(((p2 + 1) as nat, op2)),
        grammar::a_expr(ts, p2 + 1) == Ok::<_, KError>((p3, z)),
    ensures
        grammar::a_expr(ts, pos) == Ok::<_, KError>(
            (p3, grammar::arith(x, op1, grammar::arith(y, op2, z))),
        ),
{
    lemma_m_expr(ts, pos);
    lemma_m_expr(ts, p1 + 1);
    lemma_a_expr(ts, p2 + 1);
    assert(grammar::a_expr(ts, p1 + 1) == Ok::<_, KError>((p3, grammar::arith(y, op2, z))));
}

/// Products group to the right.
pub proof fn law_product_groups_right(
    ts: Tokens,
    pos: nat,
    p1: nat,
    p2: nat,
    p3: nat,
    x: Node<ExprV>,
    op1: Node<OpArith>,
    y: Node<ExprV>,
    op2: Node<OpArith>,
    z: Node<ExprV>,
)
    requires
        grammar::p_expr(ts, pos) == Ok::<_, KError>((p1, x)),
        grammar::muls(ts, p1) == Ok::<_, KError>(((p1 + 1) as nat, op1)),
        grammar::p_expr(ts, p1 + 1) == Ok::<_, KError>((p2, y)),
        grammar::muls(ts, p2) == Ok::<_, KError>(((p2 + 1) as nat, op2)),
        grammar::m_expr(ts, p2 + 1) == Ok::<_, KError>((p3, z)),
    ensures
        grammar::m_expr(ts, pos) == Ok::<_, KError>(
            (p3, grammar::arith(x, op1, grammar::arith(y, op2, z))),
        ),
{
    lemma_p_expr(ts, pos);
    lemma_p_expr(ts, p1 + 1);
    lemma_m_expr(ts, p2 + 1);
    assert(grammar::m_expr(ts, p1 + 1) == Ok::<_, KError>((p3, grammar::arith(y, op2, z))));
}

/// Powers group to the right.
pub proof fn law_power_groups_right(
    ts: Tokens,
    pos: nat,
    p1: nat,
    p2: nat,
    p3: nat,
    x: Node<ExprV>,
    op1: Node<OpArith>,
    y: Node<ExprV>,
    op2: Node<OpArith>,
    z: Node<ExprV>,
)
    requires
        grammar::u_expr(ts, pos) == Ok::<_, KError>((p1, x)),
        grammar::pow(ts, p1) == Ok::<_, KError>(((p1 + 1) as nat, op1)),
        grammar::u_expr(ts, p1 + 1) == Ok::<_, KError>((p2, y)),
        grammar::pow(ts, p2) == Ok::<_, KError>(((p2 + 1) as nat, op2)),
        grammar::p_expr(ts, p2 + 1) == Ok::<_, KError>((p3, z)),
    ensures
        grammar::p_expr(ts, pos) == Ok::<_, KError>(
            (p3, grammar::arith(x, op1, grammar::arith(y, op2, z))),
        ),
{
    lemma_u_expr(ts, pos);
    lemma_u_expr(ts, p1 + 1);
    lemma_p_expr(ts, p2 + 1);
    assert(grammar::p_expr(ts, p1 + 1) == Ok::<_, KError>((p3, grammar::arith(y, op2, z))));
}

/// The operator at the top of an expression is of the class that `class`
/// picks out.
pub open spec fn top_is(n: Node<ExprV>, class: spec_fn(OpArith) -> bool) -> bool {
    *n.data matches ExprV::Arith(_, op, _) && class(*op.data)
}

/// `+` and `-`.
pub open spec fn additive(op: OpArith) -> bool {
    op == OpArith::ADD || op == OpArith::SUB
}

/// `*`, `/` and `%`.
pub open spec fn multiplicative(op: OpArith) -> bool {
    op == OpArith::MUL || op == OpArith::DIV || op == OpArith::MOD
}

/// `^`.
pub open spec fn power(op: OpArith) -> bool {
    op == OpArith::POW
}

/// A sum.
pub open spec fn is_sum(n: Node<ExprV>) -> bool {
    top_is(n, |op: OpArith| additive(op))
}

/// A product, quotient or remainder.
pub open spec fn is_product(n: Node<ExprV>) -> bool {
    top_is(n, |op: OpArith| multiplicative(op))
}

/// A power.
pub open spec fn is_power(n: Node<ExprV>) -> bool {
    top_is(n, |op: OpArith| power(op))
}

/// What `u_expr` reads is no binary operation at all.
pub proof fn lemma_unary_level(ts: Tokens, pos: nat)
    ensures
        grammar::u_expr(ts, pos) matches Ok((_, n)) ==> !(*n.data is Arith),
        grammar::coefficient(ts, pos) matches Ok((_, n)) ==> !(*n.data is Arith),
        grammar::die(ts, pos) matches Ok((_, n)) ==> !(*n.data is Arith),
{
    assert(grammar::die(ts, pos) matches Ok((_, n)) ==> !(*n.data is Arith));
    if let Ok((p1, _)) = grammar::numeric_literal(ts, pos) {
        assert(grammar::die(ts, p1) matches Ok((_, n)) ==> !(*n.data is Arith));
    }
    assert(grammar::coefficient(ts, pos) matches Ok((_, n)) ==> !(*n.data is Arith));
    if let Ok((p1, _)) = grammar::adds(ts, pos) {
        if let Ok((p2, _)) = grammar::numeric_literal(ts, p1) {
            assert(grammar::die(ts, p2) matches Ok((_, n)) ==> !(*n.data is Arith));
        }
        assert(grammar::die(ts, p1) matches Ok((_, n)) ==> !(*n.data is Arith));
        assert(grammar::coefficient(ts, p1) matches Ok((_, n)) ==> !(*n.data is Arith));
    }
}

/// What `p_expr` reads is a power or no binary operation; what `m_expr`
/// reads is in addition a product; what `a_expr` reads is in addition a
/// sum.
pub proof fn lemma_arithmetic_levels(ts: Tokens, pos: nat)
    ensures
        grammar::p_expr(ts, pos) matches Ok((_, n)) ==> !is_sum(n) && !is_product(n),
        grammar::m_expr(ts, pos) matches Ok((_, n)) ==> !is_sum(n),
{
    lemma_unary_level(ts, pos);
    lemma_u_expr(ts, pos);
    lemma_p_expr(ts, pos);
    if let Ok((p1, _)) = grammar::u_expr(ts, pos) {
        super::sound::lemma_pow(ts, p1);
        assert(grammar::pow(ts, p1) matches Ok((_, op)) ==> *op.data == OpArith::POW);
    }
    assert(grammar::p_expr(ts, pos) matches Ok((_, n)) ==> !is_sum(n) && !is_product(n));
    if let Ok((p1, _)) = grammar::p_expr(ts, pos) {
        super::sound::lemma_muls(ts, p1);
        assert(grammar::muls(ts, p1) matches Ok((_, op)) ==> multiplicative(*op.data));
    }
}

/// Every sum that `a_expr` reads is nested to the right: its left operand
/// is never a sum itself. Likewise the left operand of a product is
/// neither a product nor a sum, and the left operand of a power is no
/// binary operation at all. A tree read from `a op b op c` therefore has
/// `a` alone on its left.
pub proof fn law_operations_nest_to_the_right(ts: Tokens, pos: nat)
    ensures
        grammar::a_expr(ts, pos) matches Ok((_, n)) ==> is_sum(n) ==> !is_sum(
            n.data->Arith_0,
        ),
        grammar::m_expr(ts, pos) matches Ok((_, n)) ==> is_product(n) ==> !is_product(
            n.data->Arith_0,
        ) && !is_sum(n.data->Arith_0),
        grammar::p_expr(ts, pos) matches Ok((_, n)) ==> is_power(n) ==> !(*n.data->Arith_0.data
            is Arith),
{
    lemma_arithmetic_levels(ts, pos);
    lemma_unary_level(ts, pos);
    lemma_m_expr(ts, pos);
    lemma_p_expr(ts, pos);
    lemma_u_expr(ts, pos);
    if let Ok((p1, _)) = grammar::m_expr(ts, pos) {
        super::sound::lemma_adds(ts, p1);
    }
    if let Ok((p1, _)) = grammar::p_expr(ts, pos) {
        super::sound::lemma_muls(ts, p1);
    }
    if let Ok((p1, _)) = grammar::u_expr(ts, pos) {
        super::sound::lemma_pow(ts, p1);
    }
}

/// Products bind tighter than sums: a product behind `x +` is the right
/// operand of the sum as a whole.
pub proof fn law_product_binds_tighter(
    ts: Tokens,
    pos: nat,
    p1: nat,
    p2: nat,
    x: Node<ExprV>,
    op: Node<OpArith>,
    y: Node<ExprV>,
)
    requires
        grammar::m_expr(ts, pos) == Ok::<_, KError>((p1, x)),
        grammar::adds(ts, p1) == Ok::<_, KError>(((p1 + 1) as nat, op)),
        grammar::m_expr(ts, p1 + 1) == Ok::<_, KError>((p2, y)),
        grammar::adds(ts, p2) is Err,
    ensures
        grammar::a_expr(ts, pos) == Ok::<_, KError>((p2, grammar::arith(x, op, y))),
{
    lemma_m_expr(ts, pos);
    lemma_m_expr(ts, p1 + 1);
    assert(grammar::a_expr(ts, p1 + 1) == Ok::<_, KError>((p2, y)));
}

/// Without a comparison operator behind it, a range expression stands as
/// it is.
pub proof fn law_no_comparison(ts: Tokens, pos: nat, p1: nat, x: Node<ExprV>)
    requires
        grammar::r_expr(ts, pos) == Ok::<_, KError>((p1, x)),
        grammar::eqs(ts, p1) is Err,
    ensures
        grammar::c_expr(ts, pos) == Ok::<_, KError>((p1, x)),
{
    lemma_r_expr(ts, pos);
}

/// One comparison makes a `Compare`.
pub proof fn law_one_comparison(
    ts: Tokens,
    pos: nat,
    p1: nat,
    p2: nat,
    x: Node<ExprV>,
    op: Node<OpEqs>,
    y: Node<ExprV>,
)
    requires
        grammar::r_expr(ts, pos) == Ok::<_, KError>((p1, x)),
        grammar::eqs(ts, p1) == Ok::<_, KError>(((p1 + 1) as nat, op)),
        grammar::r_expr(ts, p1 + 1) == Ok::<_, KError>((p2, y)),
        grammar::eqs(ts, p2) is Err,
    ensures
        grammar::c_expr(ts, pos) == Ok::<_, KError>(
            (p2, node(x.span.hull(y.span), ExprV::Compare(x, op, y))),
        ),
{
    lemma_r_expr(ts, pos);
    lemma_r_expr(ts, p1 + 1);
    assert(grammar::c_tail(ts, p1) == Ok::<_, KError>((p2, (op, y))));
    assert(grammar::c_tail(ts, p2) is Err);
    assert(grammar::c_tail(ts, p2)->Err_0 is Error);
}

/// Two comparisons in a row make a `CompareBound`, and whatever follows,
/// a third comparison operator too, is left unread.
pub proof fn law_two_comparisons(
    ts: Tokens,
    pos: nat,
    p1: nat,
    p2: nat,
    p3: nat,
    x: Node<ExprV>,
    l_op: Node<OpEqs>,
    y: Node<ExprV>,
    r_op: Node<OpEqs>,
    z: Node<ExprV>,
)
    requires
        grammar::r_expr(ts, pos) == Ok::<_, KError>((p1, x)),
        grammar::eqs(ts, p1) == Ok::<_, KError>(((p1 + 1) as nat, l_op)),
        grammar::r_expr(ts, p1 + 1) == Ok::<_, KError>((p2, y)),
        grammar::eqs(ts, p2) == Ok::<_, KError>(((p2 + 1) as nat, r_op)),
        grammar::r_expr(ts, p2 + 1) == Ok::<_, KError>((p3, z)),
    ensures
        grammar::c_expr(ts, pos) == Ok::<_, KError>(
            (
                p3,
                node(
                    x.span.hull(z.span),
                    ExprV::CompareBound { l_val: x, l_op, val: y, r_op, r_val: z },
                ),
            ),
        ),
{
    lemma_r_expr(ts, pos);
    lemma_r_expr(ts, p1 + 1);
    lemma_r_expr(ts, p2 + 1);
    assert(grammar::c_tail(ts, p1) == Ok::<_, KError>((p2, (l_op, y))));
    assert(grammar::c_tail(ts, p2) == Ok::<_, KError>((p3, (r_op, z))));
}

/// A `CompareBound` comes from two comparisons only, and a `Compare` from
/// one: what `c_expr` returns beyond its left operand is decided by how
/// many comparison tails it could read.
pub proof fn law_comparison_shapes(ts: Tokens, pos: nat)
    ensures
        grammar::c_expr(ts, pos) matches Ok((k, n)) ==> {
            let p1 = grammar::r_expr(ts, pos).unwrap().0;
            let lhs = grammar::r_expr(ts, pos).unwrap().1;
            let first = grammar::c_tail(ts, p1);
            match first {
                Ok((p2, (l_op, val))) => match grammar::c_tail(ts, p2) {
                    Ok((p3, (r_op, r_val))) => k == p3 && *n.data == (ExprV::CompareBound {
                        l_val: lhs,
                        l_op,
                        val,
                        r_op,
                        r_val,
                    }),
                    Err(_) => k == p2 && *n.data == ExprV::Compare(lhs, l_op, val),
                },
                Err(_) => k == p1 && n == lhs,
            }
        },
{
    lemma_r_expr(ts, pos);
    if let Ok((p1, lhs)) = grammar::r_expr(ts, pos) {
        super::sound::lemma_c_tail(ts, p1);
        if let Ok((p2, _)) = grammar::c_tail(ts, p1) {
            super::sound::lemma_c_tail(ts, p2);
        }
    }
}

/// Three comparisons fail: where a comparison operator stands behind a
/// complete comparison at the top of an input, the parse is an error at
/// that operator.
pub proof fn law_third_comparison_fails(ts: Tokens, p: nat, n: Node<ExprV>)
    requires
        grammar::c_expr(ts, 0) == Ok::<_, KError>((p, n)),
        !grammar::tag_at(ts, 0, TokenV::NOT),
        grammar::eqs(ts, p) is Ok,
    ensures
        grammar::parse(ts) == Err::<Node<ExprV>, _>(
            grammar::grammar_error(Some(ts[p as int].span)),
        ),
{
    lemma_c_expr(ts, 0);
    super::sound::lemma_eqs(ts, p);
    assert(!grammar::tag_at(ts, p, TokenV::AND));
    assert(!grammar::tag_at(ts, p, TokenV::OR));
    assert(!grammar::tag_at(ts, p, TokenV::ASSIGNE));
    assert(grammar::not_test(ts, 0) == Ok::<_, KError>((p, n)));
    assert(grammar::and_test(ts, 0) == Ok::<_, KError>((p, n)));
    assert(grammar::or_test(ts, 0) == Ok::<_, KError>((p, n)));
    assert(grammar::lambda_expr(ts, 0) == Ok::<_, KError>((p, n)));
    assert(grammar::if_expr(ts, 0) == Ok::<_, KError>((p, n)));
    assert(grammar::conditional_expr(ts, 0) == Ok::<_, KError>((p, n)));
    assert(grammar::assignment_expr(ts, 0) == Ok::<_, KError>((p, n)));
    assert(grammar::expr(ts, 0) == Ok::<_, KError>((p, n)));
}

/// The token at `p`, if there is one, continues none of the levels from
/// powers up to assignment: it is no binary operator, no range or
/// comparison operator, neither `and` nor `or`, and not `:=`.
pub open spec fn ends_at(ts: Tokens, p: nat) -> bool {
    p < ts.len() ==> {
        let t = *ts[p as int].data;
        &&& grammar::pow_of(t) is None
        &&& grammar::muls_of(t) is None
        &&& grammar::adds_of(t) is None
        &&& grammar::ranges_of(t) is None
        &&& grammar::eqs_of(t) is None
        &&& t != TokenV::AND
        &&& t != TokenV::OR
        &&& t != TokenV::ASSIGNE
    }
}

/// Every level hands on what the level below it read, where nothing of
/// its own stands in front of it or behind it: an operand without a sign
/// or `not` in front, and without an operator behind, is the whole
/// expression.
pub proof fn law_levels_pass_through(ts: Tokens, pos: nat, p: nat, n: Node<ExprV>)
    requires
        grammar::coefficient(ts, pos) == Ok::<_, KError>((p, n)),
        grammar::adds(ts, pos) is Err,
        !grammar::tag_at(ts, pos, TokenV::NOT),
        ends_at(ts, p),
    ensures
        grammar::u_expr(ts, pos) == Ok::<_, KError>((p, n)),
        grammar::p_expr(ts, pos) == Ok::<_, KError>((p, n)),
        grammar::m_expr(ts, pos) == Ok::<_, KError>((p, n)),
        grammar::a_expr(ts, pos) == Ok::<_, KError>((p, n)),
        grammar::r_expr(ts, pos) == Ok::<_, KError>((p, n)),
        grammar::c_expr(ts, pos) == Ok::<_, KError>((p, n)),
        grammar::not_test(ts, pos) == Ok::<_, KError>((p, n)),
        grammar::and_test(ts, pos) == Ok::<_, KError>((p, n)),
        grammar::or_test(ts, pos) == Ok::<_, KError>((p, n)),
        grammar::conditional_expr(ts, pos) == Ok::<_, KError>((p, n)),
        grammar::assignment_expr(ts, pos) == Ok::<_, KError>((p, n)),
        grammar::expr(ts, pos) == Ok::<_, KError>((p, n)),
        pos == 0 && p == ts.len() ==> grammar::parse(ts) == Ok::<_, ONode<ErrorKind>>(n),
{
    super::sound::lemma_coefficient(ts, pos);
    assert(grammar::u_expr(ts, pos) == Ok::<_, KError>((p, n)));
    assert(grammar::pow(ts, p) is Err);
    assert(grammar::p_expr(ts, pos) == Ok::<_, KError>((p, n)));
    assert(grammar::muls(ts, p) is Err);
    assert(grammar::m_expr(ts, pos) == Ok::<_, KError>((p, n)));
    assert(grammar::adds(ts, p) is Err);
    assert(grammar::a_expr(ts, pos) == Ok::<_, KError>((p, n)));
    assert(grammar::ranges(ts, p) is Err);
    assert(grammar::r_expr(ts, pos) == Ok::<_, KError>((p, n)));
    assert(grammar::eqs(ts, p) is Err);
    assert(grammar::c_tail(ts, p) is Err && grammar::c_tail(ts, p)->Err_0 is Error);
    assert(grammar::c_expr(ts, pos) == Ok::<_, KError>((p, n)));
    assert(grammar::not_test(ts, pos) == Ok::<_, KError>((p, n)));
    assert(!grammar::tag_at(ts, p, TokenV::AND));
    assert(grammar::and_test(ts, pos) == Ok::<_, KError>((p, n)));
    assert(!grammar::tag_at(ts, p, TokenV::OR));
    assert(grammar::or_test(ts, pos) == Ok::<_, KError>((p, n)));
    assert(grammar::lambda_expr(ts, pos) == Ok::<_, KError>((p, n)));
    assert(grammar::if_expr(ts, pos) == Ok::<_, KError>((p, n)));
    assert(grammar::conditional_expr(ts, pos) == Ok::<_, KError>((p, n)));
    assert(!grammar::tag_at(ts, p, TokenV::ASSIGNE));
    assert(grammar::assignment_expr(ts, pos) == Ok::<_, KError>((p, n)));
    assert(grammar::expr(ts, pos) == Ok::<_, KError>((p, n)));
}

/// `:=` behind an expression that stands for no pattern is a failure at
/// the span of `:=`.
pub proof fn law_assignment_needs_target(ts: Tokens, pos: nat, p1: nat, lhs: Node<ExprV>)
    requires
        grammar::conditional_expr(ts, pos) == Ok::<_, KError>((p1, lhs)),
        grammar::tag_at(ts, p1, TokenV::ASSIGNE),
        target_of_expr(lhs.span, *lhs.data) is None,
    ensures
        grammar::assignment_expr(ts, pos) == Err::<(nat, Node<ExprV>), _>(
            KError::spec_failure(Some(ts[p1 as int].span), ErrorKind::Grammar),
        ),
{
}

/// `:=` behind an expression that stands for a pattern binds that pattern
/// to the assignment expression that is read behind it.
pub proof fn law_assignment_binds(
    ts: Tokens,
    pos: nat,
    p1: nat,
    p2: nat,
    lhs: Node<ExprV>,
    rhs: Node<ExprV>,
)
    requires
        grammar::conditional_expr(ts, pos) == Ok::<_, KError>((p1, lhs)),
        grammar::tag_at(ts, p1, TokenV::ASSIGNE),
        target_of_expr(lhs.span, *lhs.data) is Some,
        grammar::assignment_expr(ts, p1 + 1) == Ok::<_, KError>((p2, rhs)),
    ensures
        grammar::assignment_expr(ts, pos) == Ok::<_, KError>(
            (p2, grammar::assigned(target_of_expr(lhs.span, *lhs.data).unwrap(), rhs)),
        ),
{
    lemma_conditional_expr(ts, pos);
}

/// Assignments group to the right: behind `x := y :=`, whatever follows is
/// read first and bound to `y`, and that binding is bound to `x`. Nothing
/// of the chain is left unread.
pub proof fn law_assignment_groups_right(
    ts: Tokens,
    pos: nat,
    p1: nat,
    p2: nat,
    p3: nat,
    x: Node<ExprV>,
    y: Node<ExprV>,
    z: Node<ExprV>,
)
    requires
        grammar::conditional_expr(ts, pos) == Ok::<_, KError>((p1, x)),
        grammar::tag_at(ts, p1, TokenV::ASSIGNE),
        target_of_expr(x.span, *x.data) is Some,
        grammar::conditional_expr(ts, p1 + 1) == Ok::<_, KError>((p2, y)),
        grammar::tag_at(ts, p2, TokenV::ASSIGNE),
        target_of_expr(y.span, *y.data) is Some,
        grammar::assignment_expr(ts, p2 + 1) == Ok::<_, KError>((p3, z)),
    ensures
        grammar::assignment_expr(ts, pos) == Ok::<_, KError>(
            (
                p3,
                grammar::assigned(
                    target_of_expr(x.span, *x.data).unwrap(),
                    grammar::assigned(target_of_expr(y.span, *y.data).unwrap(), z),
                ),
            ),
        ),
{
    lemma_conditional_expr(ts, pos);
    lemma_conditional_expr(ts, p1 + 1);
    law_assignment_binds(ts, p1 + 1, p2, p3, y, z);
    law_assignment_binds(
        ts,
        pos,
        p1,
        p3,
        x,
        grammar::assigned(target_of_expr(y.span, *y.data).unwrap(), z),
    );
}

/// A failure behind `:=` aborts the whole chain: where the right side of
/// an assignment fails, the assignment fails in the same way.
pub proof fn law_assignment_passes_failure_on(ts: Tokens, pos: nat, p1: nat, lhs: Node<ExprV>)
    requires
        grammar::conditional_expr(ts, pos) == Ok::<_, KError>((p1, lhs)),
        grammar::tag_at(ts, p1, TokenV::ASSIGNE),
        target_of_expr(lhs.span, *lhs.data) is Some,
        grammar::assignment_expr(ts, p1 + 1) is Err,
    ensures
        grammar::assignment_expr(ts, pos) == Err::<(nat, Node<ExprV>), _>(
            grammar::assignment_expr(ts, p1 + 1)->Err_0,
        ),
{
    lemma_conditional_expr(ts, pos);
}

/// Only atoms stand for patterns, and of the atoms only identifiers and
/// displays: arithmetic, also in parentheses, stands for none.
pub proof fn law_targets_are_atoms(span: Span, e: ExprV)
    ensures
        target_of_expr(span, e) is Some ==> e is Primary && e->Primary_0 is Atom && {
            let a = e->Primary_0->Atom_0;
            a is Id || a is Paren || a is Tuple || a is ListDisplay || a is DictDisplay
        },
        e matches ExprV::Primary(PrimaryV::Atom(AtomV::Paren(item))) ==> (
        *item.data matches ListItemV::Expr(inner) ==> !(inner is Primary) ==> target_of_expr(
            span,
            e,
        ) is None),
{
    if let ExprV::Primary(PrimaryV::Atom(AtomV::Paren(item))) = e {
        if let ListItemV::Expr(inner) = *item.data {
            if !(inner is Primary) {
                assert(target_of_expr(item.span, inner) is None);
                assert(target_of_list_item(item.span, *item.data) is None);
                assert(target_of_atom(span, AtomV::Paren(item)) is None);
            }
        }
    }
}

/// A number written directly in front of a die is its coefficient.
pub proof fn law_coefficient_of_die(ts: Tokens, pos: nat)
    requires
        pos + 2 < ts.len(),
        *at(ts, pos).data is Integer,
        *at(ts, pos + 1).data == TokenV::DIE,
        *at(ts, pos + 2).data is Integer,
    ensures
        grammar::coefficient(ts, pos) == Ok::<_, KError>(
            (
                (pos + 3) as nat,
                node(
                    at(ts, pos).span.hull(at(ts, pos + 1).span.hull(at(ts, pos + 2).span)),
                    ExprV::Coefficient(
                        node(at(ts, pos).span, AtomV::Integer(at(ts, pos).data->Integer_0)),
                        node(
                            at(ts, pos + 1).span.hull(at(ts, pos + 2).span),
                            ExprV::Die(
                                node(at(ts, pos + 2).span, AtomV::Integer(at(ts, pos + 2).data->Integer_0)),
                            ),
                        ),
                    ),
                ),
            ),
        ),
{
    law_die_alone(ts, pos + 1);
}

/// A die alone is a die expression.
pub proof fn law_die_alone(ts: Tokens, pos: nat)
    requires
        pos + 1 < ts.len(),
        *at(ts, pos).data == TokenV::DIE,
        *at(ts, pos + 1).data is Integer,
    ensures
        grammar::die(ts, pos) == Ok::<_, KError>(
            (
                (pos + 2) as nat,
                node(
                    at(ts, pos).span.hull(at(ts, pos + 1).span),
                    ExprV::Die(
                        node(at(ts, pos + 1).span, AtomV::Integer(at(ts, pos + 1).data->Integer_0)),
                    ),
                ),
            ),
        ),
        grammar::coefficient(ts, pos) == grammar::die(ts, pos),
{
}

/// A number and a die with a delimiter between them do not coalesce: the
/// number is read alone, up to the delimiter.
pub proof fn law_delimiter_separates(ts: Tokens, pos: nat)
    requires
        pos + 1 < ts.len(),
        *at(ts, pos).data is Integer,
        *at(ts, pos + 1).data == TokenV::DELIM,
    ensures
        grammar::coefficient(ts, pos) == Ok::<_, KError>(
            (
                (pos + 1) as nat,
                grammar::atom_expr(
                    node(at(ts, pos).span, AtomV::Integer(at(ts, pos).data->Integer_0)),
                ),
            ),
        ),
{
    let p = (pos + 1) as nat;
    assert(grammar::atom(ts, p) == grammar::no_match::<Node<AtomV>>(ts, p));
    assert(grammar::primary(ts, p) == grammar::no_match::<Node<PrimaryV>>(ts, p));
    assert(grammar::expr_node(ts, p) == grammar::no_match::<Node<ExprV>>(ts, p));
    assert(grammar::die(ts, p) == grammar::no_match::<Node<ExprV>>(ts, p));
}

} // verus!
