use crate::types::Span;
use vstd::prelude::*;

verus! {

/// The hull does not depend on the order of its operands.
pub proof fn law_hull_commutes(a: Span, b: Span)
    ensures
        a.hull(b) == b.hull(a),
{
}

/// Spans compose associatively.
pub proof fn law_hull_associates(a: Span, b: Span, c: Span)
    ensures
        a.hull(b).hull(c) == a.hull(b.hull(c)),
{
}

/// Adding a span to itself changes nothing.
pub proof fn law_hull_idempotent(a: Span)
    ensures
        a.hull(a) == a,
{
}

/// The hull contains both operands, and is the least span that does.
pub proof fn law_hull_least(a: Span, b: Span, c: Span)
    ensures
        a.hull(b).contains(a),
        a.hull(b).contains(b),
        c.contains(a) && c.contains(b) ==> c.contains(a.hull(b)),
        a.wf() && b.wf() ==> a.hull(b).wf(),
{
}

/// `None` is the identity of the lifted hull, which is associative too.
pub proof fn law_hull_option(a: Option<Span>, b: Option<Span>, c: Option<Span>)
    ensures
        Span::hull_option(a, None) == a,
        Span::hull_option(None, a) == a,
        Span::hull_option(a, b) == Span::hull_option(b, a),
        Span::hull_option(Span::hull_option(a, b), c) == Span::hull_option(
            a,
            Span::hull_option(b, c),
        ),
{
}

/// The hull of a sequence is `None` exactly for the empty sequence, and
/// contains every span of the sequence.
pub proof fn law_hull_seq(spans: Seq<Span>, i: int)
    ensures
        Span::hull_seq(spans) is None <==> spans.len() == 0,
        0 <= i < spans.len() ==> Span::hull_seq(spans).unwrap().contains(spans[i]),
    decreases spans.len(),
{
    if spans.len() > 0 {
        law_hull_seq(spans.drop_last(), i);
        if 0 <= i < spans.len() - 1 {
            assert(spans.drop_last()[i] == spans[i]);
        }
    }
}

} // verus!
