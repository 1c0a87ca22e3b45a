use crate::parser::error::{ErrorKind, KError};
use std::ops::{Add, Index, Range, RangeFrom, RangeFull, RangeTo};
use vstd::prelude::*;
use vstd::std_specs::convert::{FromSpec, FromSpecImpl};
use vstd::std_specs::ops::AddSpecImpl;
use vstd::string::StringSliceAdditionalSpecFns;

verus! {

/// `std::ops::RangeFrom`, the type of `a..`: a struct with the one public
/// field `start`. Nothing is claimed of it but that it has this field.
#[verifier::external_type_specification]
pub struct ExRangeFrom<Idx>(RangeFrom<Idx>);

/// `std::ops::RangeFull`, the type of `..`: a struct without fields.
#[verifier::external_type_specification]
pub struct ExRangeFull(RangeFull);

/// `std::ops::RangeTo`, the type of `..b`: a struct with the one public
/// field `end`. Nothing is claimed of it but that it has this field.
#[verifier::external_type_specification]
pub struct ExRangeTo<Idx>(RangeTo<Idx>);

/// A half-open byte range `[start, end)` over the source text.
#[derive(Clone, Copy, Debug, PartialEq, Eq, Structural)]
pub struct Span {
    pub start: usize,
    pub end: usize,
}

impl Span {
    /// A span is well formed when it does not end before it starts.
    pub open spec fn wf(self) -> bool {
        self.start <= self.end
    }

    /// The convex hull of two spans: the least start and the greatest end.
    pub open spec fn hull(self, other: Span) -> Span {
        Span {
            start: if self.start <= other.start { self.start } else { other.start },
            end: if self.end >= other.end { self.end } else { other.end },
        }
    }

    /// `other` lies inside `self`.
    pub open spec fn contains(self, other: Span) -> bool {
        self.start <= other.start && other.end <= self.end
    }

    /// The hull lifted to optional spans, with `None` as the identity.
    pub open spec fn hull_option(lhs: Option<Span>, rhs: Option<Span>) -> Option<Span> {
        match (lhs, rhs) {
            (Some(l), Some(r)) => Some(l.hull(r)),
            (Some(l), None) => Some(l),
            (None, Some(r)) => Some(r),
            (None, None) => None,
        }
    }

    /// The hull of a whole sequence of spans, `None` when it is empty.
    pub open spec fn hull_seq(spans: Seq<Span>) -> Option<Span>
        decreases spans.len(),
    {
        if spans.len() == 0 {
            None
        } else {
            Span::hull_option(Span::hull_seq(spans.drop_last()), Some(spans.last()))
        }
    }

    /// The span of a range that does not end before it starts.
    pub fn new(range: Range<usize>) -> (s: Span)
        requires
            range.start <= range.end,
        ensures
            s == (Span { start: range.start, end: range.end }),
            s.wf(),
    {
        Span { start: range.start, end: range.end }
    }

    /// The part of this span that `range` selects, counted from its start.
    pub fn slice<T: SliceSpan>(&self, range: T) -> (s: Span)
        requires
            range.slice_req(self),
        ensures
            s == range.slice_spec(self),
    {
        range.slice_span(self)
    }

    /// The number of bytes in the span.
    pub fn len(&self) -> (n: usize)
        requires
            self.wf(),
        ensures
            n == self.end - self.start,
    {
        self.end - self.start
    }

    /// The span of an optional value, by the value's own conversion to a span.
    pub fn get_option<'input, T>(val: &'input Option<T>) -> (r: Option<Span>) where
        Span: From<&'input T>,

        ensures
            r is Some <==> val is Some,
            <Span as FromSpec<&T>>::obeys_from_spec() ==> r == Span::spec_get_option(val),
    {
        match val {
            Some(val) => Some(Span::from(val)),
            None => None,
        }
    }

    /// The span of an optional value, in the model.
    pub open spec fn spec_get_option<'input, T>(val: &'input Option<T>) -> Option<Span> where
        Span: From<&'input T>,
     {
        match val {
            Some(v) => Some(<Span as FromSpec<&T>>::from_spec(v)),
            None => None,
        }
    }

    /// The hull of two optional spans, with `None` as the identity.
    pub fn add_option(lhs: Option<Span>, rhs: Option<Span>) -> (r: Option<Span>)
        ensures
            r == Span::hull_option(lhs, rhs),
    {
        match (lhs, rhs) {
            (Some(l), Some(r)) => Some(l + r),
            (Some(l), None) => Some(l),
            (None, Some(r)) => Some(r),
            (None, None) => None,
        }
    }

    /// The hull of two optional spans behind references, with `None` as the
    /// identity.
    pub fn add_option_ref(lhs: Option<&Span>, rhs: Option<&Span>) -> (r: Option<Span>)
        ensures
            r == Span::hull_option(
                match lhs {
                    Some(l) => Some(*l),
                    None => None,
                },
                match rhs {
                    Some(r) => Some(*r),
                    None => None,
                },
            ),
    {
        match (lhs, rhs) {
            (Some(l), Some(r)) => Some(*l + *r),
            (Some(l), None) => Some(*l),
            (None, Some(r)) => Some(*r),
            (None, None) => None,
        }
    }

    /// The spans of the items of a sequence, each by its own conversion.
    pub open spec fn spans_of<'input, T: 'input>(items: Seq<T>) -> Seq<Span> where
        Span: From<&'input T>,
     {
        Seq::new(items.len(), |i: int| <Span as FromSpec<&T>>::from_spec(&items[i]))
    }

    /// The hull of the spans of all items, `None` for no items.
    pub fn reduce<'input, T>(vec: &'input Vec<T>) -> (r: Option<Span>) where
        Span: From<&'input T>,

        ensures
            r is None <==> vec@.len() == 0,
            <Span as FromSpec<&T>>::obeys_from_spec() ==> r == Span::hull_seq(
                Span::spans_of(vec@),
            ),
    {
        let mut acc: Option<Span> = None;
        let mut i: usize = 0;
        while i < vec.len()
            invariant
                i <= vec@.len(),
                acc is None <==> i == 0,
                <Span as FromSpec<&T>>::obeys_from_spec() ==> acc == Span::hull_seq(
                    Span::spans_of(vec@.take(i as int)),
                ),
            decreases vec@.len() - i,
        {
            let next = Span::from(&vec[i]);
            proof {
                let before = Span::spans_of(vec@.take(i as int));
                let after = Span::spans_of(vec@.take(i + 1));
                assert(after.drop_last() =~= before);
                assert(after.last() == <Span as FromSpec<&T>>::from_spec(&vec@[i as int]));
            }
            acc = Span::add_option(acc, Some(next));
            i += 1;
        }
        proof {
            assert(vec@.take(i as int) =~= vec@);
        }
        acc
    }

    /// The hull of the spans of all items, or an unrecoverable runtime
    /// error where there is none.
    pub fn reduce_ok<'input, T>(vec: &'input Vec<T>) -> (r: Result<Span, KError>) where
        Span: From<&'input T>,

        ensures
            r is Err <==> vec@.len() == 0,
            r is Err ==> r->Err_0 == KError::spec_failure(None, ErrorKind::Runtime),
            <Span as FromSpec<&T>>::obeys_from_spec() && r is Ok ==> Some(r->Ok_0)
                == Span::hull_seq(Span::spans_of(vec@)),
    {
        match Span::reduce(vec) {
            Some(span) => Ok(span),
            None => Err(KError::failure(None, ErrorKind::Runtime)),
        }
    }

    /// The spans of the items that a sequence refers to.
    pub open spec fn spans_of_refs<'input, T: 'input>(items: Seq<&'input T>) -> Seq<Span> where
        Span: From<&'input T>,
     {
        Seq::new(items.len(), |i: int| <Span as FromSpec<&T>>::from_spec(items[i]))
    }

    /// The hull of the spans of all items referred to, `None` for no
    /// items.
    pub fn reduce_ref<'input, T>(vec: &'input Vec<&'input T>) -> (r: Option<Span>) where
        Span: From<&'input T>,

        ensures
            r is None <==> vec@.len() == 0,
            <Span as FromSpec<&T>>::obeys_from_spec() ==> r == Span::hull_seq(
                Span::spans_of_refs(vec@),
            ),
    {
        let mut acc: Option<Span> = None;
        let mut i: usize = 0;
        while i < vec.len()
            invariant
                i <= vec@.len(),
                acc is None <==> i == 0,
                <Span as FromSpec<&T>>::obeys_from_spec() ==> acc == Span::hull_seq(
                    Span::spans_of_refs(vec@.take(i as int)),
                ),
            decreases vec@.len() - i,
        {
            let next = Span::from(vec[i]);
            proof {
                let before = Span::spans_of_refs(vec@.take(i as int));
                let after = Span::spans_of_refs(vec@.take(i + 1));
                assert(after.drop_last() =~= before);
                assert(after.last() == <Span as FromSpec<&T>>::from_spec(vec@[i as int]));
            }
            acc = Span::add_option(acc, Some(next));
            i += 1;
        }
        proof {
            assert(vec@.take(i as int) =~= vec@);
        }
        acc
    }

    /// The hull of the spans of all items referred to, or an unrecoverable
    /// runtime error where there is none.
    pub fn reduce_ref_ok<'input, T>(vec: &'input Vec<&'input T>) -> (r: Result<Span, KError>) where
        Span: From<&'input T>,

        ensures
            r is Err <==> vec@.len() == 0,
            r is Err ==> r->Err_0 == KError::spec_failure(None, ErrorKind::Runtime),
            <Span as FromSpec<&T>>::obeys_from_spec() && r is Ok ==> Some(r->Ok_0)
                == Span::hull_seq(Span::spans_of_refs(vec@)),
    {
        match Span::reduce_ref(vec) {
            Some(span) => Ok(span),
            None => Err(KError::failure(None, ErrorKind::Runtime)),
        }
    }

    /// This span widened by an optional one.
    pub open spec fn hull_with(self, other: Option<Span>) -> Span {
        match other {
            Some(span) => self.hull(span),
            None => self,
        }
    }

    /// The span of the first item, `None` for no items.
    pub fn get0<'input, T>(input: &'input [T]) -> (r: Option<Span>) where Span: From<&'input T>
        ensures
            r is None <==> input@.len() == 0,
            <Span as FromSpec<&T>>::obeys_from_spec() && input@.len() > 0 ==> r == Some(
                <Span as FromSpec<&T>>::from_spec(&input@[0]),
            ),
    {
        if input.len() > 0 {
            Some(Span::from(&input[0]))
        } else {
            None
        }
    }
}

impl AddSpecImpl<Span> for Span {
    open spec fn obeys_add_spec() -> bool {
        true
    }

    open spec fn add_req(self, rhs: Span) -> bool {
        true
    }

    open spec fn add_spec(self, rhs: Span) -> Span {
        self.hull(rhs)
    }
}

impl Add<Span> for Span {
    type Output = Span;

    fn add(self, rhs: Span) -> (r: Span) {
        Span {
            start: if self.start <= rhs.start { self.start } else { rhs.start },
            end: if self.end >= rhs.end { self.end } else { rhs.end },
        }
    }
}

impl AddSpecImpl<Option<Span>> for Span {
    open spec fn obeys_add_spec() -> bool {
        true
    }

    open spec fn add_req(self, rhs: Option<Span>) -> bool {
        true
    }

    open spec fn add_spec(self, rhs: Option<Span>) -> Span {
        self.hull_with(rhs)
    }
}

impl Add<Option<Span>> for Span {
    type Output = Span;

    fn add(self, rhs: Option<Span>) -> (r: Span) {
        match rhs {
            Some(span) => self + span,
            None => self,
        }
    }
}

impl AddSpecImpl<Span> for Option<Span> {
    open spec fn obeys_add_spec() -> bool {
        true
    }

    open spec fn add_req(self, rhs: Span) -> bool {
        true
    }

    open spec fn add_spec(self, rhs: Span) -> Span {
        match self {
            Some(span) => rhs.hull(span),
            None => rhs,
        }
    }
}

impl Add<Span> for Option<Span> {
    type Output = Span;

    fn add(self, rhs: Span) -> (r: Span) {
        rhs + self
    }
}

impl<'a> AddSpecImpl<&'a Span> for &'a Span {
    open spec fn obeys_add_spec() -> bool {
        true
    }

    open spec fn add_req(self, rhs: &'a Span) -> bool {
        true
    }

    open spec fn add_spec(self, rhs: &'a Span) -> Span {
        self.hull(*rhs)
    }
}

impl<'a> Add<&'a Span> for &'a Span {
    type Output = Span;

    fn add(self, rhs: &'a Span) -> (r: Span) {
        *self + *rhs
    }
}

impl<'a> AddSpecImpl<&'a Span> for Span {
    open spec fn obeys_add_spec() -> bool {
        true
    }

    open spec fn add_req(self, rhs: &'a Span) -> bool {
        true
    }

    open spec fn add_spec(self, rhs: &'a Span) -> Span {
        self.hull(*rhs)
    }
}

impl<'a> Add<&'a Span> for Span {
    type Output = Span;

    fn add(self, rhs: &'a Span) -> (r: Span) {
        self + *rhs
    }
}

impl<'a> AddSpecImpl<Span> for &'a Span {
    open spec fn obeys_add_spec() -> bool {
        true
    }

    open spec fn add_req(self, rhs: Span) -> bool {
        true
    }

    open spec fn add_spec(self, rhs: Span) -> Span {
        self.hull(rhs)
    }
}

impl<'a> Add<Span> for &'a Span {
    type Output = Span;

    fn add(self, rhs: Span) -> (r: Span) {
        *self + rhs
    }
}

impl<'a> AddSpecImpl<Option<&'a Span>> for Span {
    open spec fn obeys_add_spec() -> bool {
        true
    }

    open spec fn add_req(self, rhs: Option<&'a Span>) -> bool {
        true
    }

    open spec fn add_spec(self, rhs: Option<&'a Span>) -> Span {
        match rhs {
            Some(span) => self.hull(*span),
            None => self,
        }
    }
}

impl<'a> Add<Option<&'a Span>> for Span {
    type Output = Span;

    fn add(self, rhs: Option<&'a Span>) -> (r: Span) {
        match rhs {
            Some(span) => self + *span,
            None => self,
        }
    }
}

impl<'a> AddSpecImpl<Span> for Option<&'a Span> {
    open spec fn obeys_add_spec() -> bool {
        true
    }

    open spec fn add_req(self, rhs: Span) -> bool {
        true
    }

    open spec fn add_spec(self, rhs: Span) -> Span {
        match self {
            Some(span) => rhs.hull(*span),
            None => rhs,
        }
    }
}

impl<'a> Add<Span> for Option<&'a Span> {
    type Output = Span;

    fn add(self, rhs: Span) -> (r: Span) {
        rhs + self
    }
}

impl<'a> FromSpecImpl<&'a str> for Span {
    open spec fn obeys_from_spec() -> bool {
        true
    }

    open spec fn from_spec(v: &'a str) -> Span {
        Span { start: 0, end: v.spec_bytes().len() as usize }
    }
}

impl<'a> From<&'a str> for Span {
    fn from(v: &'a str) -> (r: Span) {
        Span { start: 0, end: v.len() }
    }
}

impl FromSpecImpl<String> for Span {
    open spec fn obeys_from_spec() -> bool {
        true
    }

    open spec fn from_spec(v: String) -> Span {
        Span { start: 0, end: vstd::utf8::encode_utf8(v@).len() as usize }
    }
}

impl From<String> for Span {
    fn from(v: String) -> (r: Span) {
        Span { start: 0, end: v.as_str().len() }
    }
}

impl FromSpecImpl<Range<usize>> for Span {
    open spec fn obeys_from_spec() -> bool {
        true
    }

    open spec fn from_spec(v: Range<usize>) -> Span {
        Span { start: v.start, end: v.end }
    }
}

impl From<Range<usize>> for Span {
    fn from(v: Range<usize>) -> (r: Span) {
        Span { start: v.start, end: v.end }
    }
}

impl<'a> FromSpecImpl<&'a Span> for Span {
    open spec fn obeys_from_spec() -> bool {
        true
    }

    open spec fn from_spec(v: &'a Span) -> Span {
        *v
    }
}

impl<'a> From<&'a Span> for Span {
    fn from(v: &'a Span) -> (r: Span) {
        *v
    }
}

impl vstd::std_specs::core::IndexSpecImpl<RangeFull> for Span {
    open spec fn index_req(&self, index: &RangeFull) -> bool {
        true
    }
}

impl Index<RangeFull> for Span {
    type Output = Span;

    /// The whole span: `span[..]` is `span`.
    fn index(&self, _range: RangeFull) -> (r: &Span)
        ensures
            *r == *self,
    {
        self
    }
}

/// A range that selects a part of a span, counted from the span's start.
pub trait SliceSpan {
    /// The selection stays representable and yields a well-formed span.
    spec fn slice_req(&self, span: &Span) -> bool;

    spec fn slice_spec(&self, span: &Span) -> Span;

    fn slice_span(&self, span: &Span) -> (r: Span)
        requires
            self.slice_req(span),
        ensures
            r == self.slice_spec(span),
    ;
}

impl SliceSpan for usize {
    open spec fn slice_req(&self, span: &Span) -> bool {
        span.start + *self <= usize::MAX
    }

    open spec fn slice_spec(&self, span: &Span) -> Span {
        Span { start: (span.start + *self) as usize, end: (span.start + *self) as usize }
    }

    fn slice_span(&self, span: &Span) -> (r: Span) {
        Span::new(span.start + *self..span.start + *self)
    }
}

impl SliceSpan for Range<usize> {
    open spec fn slice_req(&self, span: &Span) -> bool {
        self.start <= self.end && span.start + self.end <= usize::MAX
    }

    open spec fn slice_spec(&self, span: &Span) -> Span {
        Span { start: (span.start + self.start) as usize, end: (span.start + self.end) as usize }
    }

    fn slice_span(&self, span: &Span) -> (r: Span) {
        Span::new(span.start + self.start..span.start + self.end)
    }
}

impl SliceSpan for RangeFrom<usize> {
    open spec fn slice_req(&self, span: &Span) -> bool {
        span.start + self.start <= span.end
    }

    open spec fn slice_spec(&self, span: &Span) -> Span {
        Span { start: (span.start + self.start) as usize, end: span.end }
    }

    fn slice_span(&self, span: &Span) -> (r: Span) {
        Span::new(span.start + self.start..span.end)
    }
}

impl SliceSpan for RangeTo<usize> {
    open spec fn slice_req(&self, span: &Span) -> bool {
        span.start + self.end <= usize::MAX
    }

    open spec fn slice_spec(&self, span: &Span) -> Span {
        Span { start: span.start, end: (span.start + self.end) as usize }
    }

    fn slice_span(&self, span: &Span) -> (r: Span) {
        Span::new(span.start..span.start + self.end)
    }
}

} // verus!
