use super::error::{ErrorKind, KError};
use super::grammar;
use super::grammar::{SResult, Tokens};
use crate::token::Token;
use crate::types::{Node, Span};
use vstd::prelude::*;

verus! {

/// The model of a lexed input: the model of each token, under its span.
pub open spec fn tokens_view(tokens: Seq<Node<Token>>) -> Tokens {
    Seq::new(tokens.len(), |i: int| tokens[i]@)
}

/// An immutable cursor over a lexed input.
#[derive(Clone, Copy, Debug, PartialEq)]
pub struct Input<'a> {
    pub(crate) tokens: &'a [Node<Token>],
    pub(crate) pos: usize,
}

/// What a parser returns: the cursor after what it consumed and the value
/// read, or the way it gave up.
pub type KResult<'a, T> = Result<(Input<'a>, T), KError>;

impl<'a> Input<'a> {
    #[verifier::type_invariant]
    /// The cursor stands inside the input or at its end.
    pub closed spec fn inv(self) -> bool {
        self.pos <= self.tokens@.len()
    }

    /// The whole input, in the model.
    pub closed spec fn tokens(self) -> Tokens {
        tokens_view(self.tokens@)
    }

    /// The number of tokens before the cursor.
    pub closed spec fn pos(self) -> nat {
        self.pos as nat
    }

    /// The number of tokens from the cursor on.
    pub open spec fn remaining(self) -> nat {
        (self.tokens().len() - self.pos()) as nat
    }

    /// A cursor at the start of `tokens`.
    pub fn new(tokens: &'a [Node<Token>]) -> (i: Input<'a>)
        ensures
            i.tokens() == tokens_view(tokens@),
            i.pos() == 0,
    {
        Input { tokens, pos: 0 }
    }

    /// The number of tokens from the cursor on.
    pub fn len(&self) -> (n: usize)
        ensures
            n == self.remaining(),
            self.pos() + n == self.tokens().len(),
    {
        proof {
            use_type_invariant(self);
        }
        self.tokens.len() - self.pos
    }

    /// No token is left.
    pub fn is_empty(&self) -> (b: bool)
        ensures
            b == (self.pos() >= self.tokens().len()),
            self.pos() <= self.tokens().len(),
    {
        proof {
            use_type_invariant(self);
        }
        self.pos >= self.tokens.len()
    }

    /// The token under the cursor, if one is left.
    pub fn head(&self) -> (r: Option<&'a Node<Token>>)
        ensures
            self.pos() <= self.tokens().len(),
            match r {
                Some(t) => self.pos() < self.tokens().len() && t@ == self.tokens()[
                    self.pos() as int
                ],
                None => self.pos() == self.tokens().len(),
            },
    {
        proof {
            use_type_invariant(self);
        }
        if self.pos < self.tokens.len() {
            Some(&self.tokens[self.pos])
        } else {
            None
        }
    }

    /// The span of the token under the cursor, if one is left.
    pub fn head_span(&self) -> (r: Option<Span>)
        ensures
            r == grammar::head_span(self.tokens(), self.pos()),
    {
        match self.head() {
            Some(t) => Some(t.span),
            None => None,
        }
    }

    /// The cursor one token further.
    pub fn advance(&self) -> (j: Input<'a>)
        requires
            self.pos() < self.tokens().len(),
        ensures
            j.tokens() == self.tokens(),
            j.pos() == self.pos() + 1,
    {
        let len = self.tokens.len();
        assert(self.pos < len);
        Input { tokens: self.tokens, pos: self.pos + 1 }
    }

    /// The recoverable error of a parser that does not match here.
    pub fn no_match<T>(&self) -> (r: KResult<'a, T>)
        ensures
            r is Err,
            r->Err_0 == KError::spec_error(
                grammar::head_span(self.tokens(), self.pos()),
                ErrorKind::Grammar,
            ),
    {
        Err(KError::error(self.head_span(), ErrorKind::Grammar))
    }
}

/// The input is as a lexer gives it: every span is well formed, and no
/// token starts before the one in front of it has ended.
pub open spec fn ordered(ts: Tokens) -> bool {
    &&& forall|i: int| 0 <= i < ts.len() ==> (#[trigger] ts[i]).span.wf()
    &&& forall|i: int, j: int|
        0 <= i < j < ts.len() ==> (#[trigger] ts[i]).span.end <= (#[trigger] ts[j]).span.start
}

/// Tells whether the tokens are in the order of the source text.
pub fn is_ordered(tokens: &[Node<Token>]) -> (b: bool)
    ensures
        b == ordered(tokens_view(tokens@)),
{
    let ghost ts = tokens_view(tokens@);
    let mut i: usize = 0;
    while i < tokens.len()
        invariant
            i <= tokens@.len(),
            ts == tokens_view(tokens@),
            forall|k: int| 0 <= k < i ==> (#[trigger] ts[k]).span.wf(),
            forall|k: int, l: int|
                0 <= k < l < i ==> (#[trigger] ts[k]).span.end <= (#[trigger] ts[l]).span.start,
        decreases tokens@.len() - i,
    {
        let span = tokens[i].span;
        assert(ts[i as int].span == span);
        if span.start > span.end {
            return false;
        }
        if i > 0 {
            let before = tokens[i - 1].span;
            assert(ts[i - 1].span == before);
            if before.end > span.start {
                return false;
            }
            assert forall|k: int| 0 <= k < i implies (#[trigger] ts[k]).span.end
                <= span.start by {
                if k < i - 1 {
                    assert(ts[k].span.end <= ts[i - 1].span.start);
                    assert(ts[i - 1].span.wf());
                }
            }
        }
        i += 1;
    }
    true
}

/// A parser's result agrees with the model: on success it stands in the
/// same input, strictly after where it started, and holds the value that
/// the model gives; on an error it gives that same error.
pub open spec fn agrees<'a, T: View>(i: Input<'a>, r: KResult<'a, T>, model: SResult<T::V>) -> bool {
    match r {
        Ok((j, x)) => {
            &&& j.tokens() == i.tokens()
            &&& i.pos() < j.pos() <= i.tokens().len()
            &&& model == Ok::<(nat, T::V), KError>((j.pos(), x@))
        },
        Err(e) => model == Err::<(nat, T::V), KError>(e),
    }
}

/// Succeeds and advances if and only if the head token equals `tag`.
pub fn token_tag<'a>(i: Input<'a>, tag: &Token) -> (r: KResult<'a, &'a Node<Token>>)
    ensures
        agrees(i, r, grammar::token_tag(i.tokens(), i.pos(), tag@)),
        r is Ok <==> grammar::tag_at(i.tokens(), i.pos(), tag@),
        r matches Ok((j, t)) ==> j.pos() == i.pos() + 1 && t@ == i.tokens()[i.pos() as int],
{
    match i.head() {
        Some(t) => {
            if *t.data == *tag {
                Ok((i.advance(), t))
            } else {
                i.no_match()
            }
        },
        None => i.no_match(),
    }
}

/// Succeeds and advances if and only if `pred` holds of the head token.
pub fn token_if<'a, F: Fn(&Node<Token>) -> bool>(i: Input<'a>, pred: F) -> (r: KResult<
    'a,
    &'a Node<Token>,
>)
    requires
        forall|t: &Node<Token>| pred.requires((t,)),
    ensures
        match r {
            Ok((j, t)) => {
                &&& j.tokens() == i.tokens()
                &&& j.pos() == i.pos() + 1
                &&& i.pos() < i.tokens().len()
                &&& t@ == i.tokens()[i.pos() as int]
                &&& pred.ensures((t,), true)
            },
            Err(e) => {
                &&& e == KError::spec_error(
                    grammar::head_span(i.tokens(), i.pos()),
                    ErrorKind::Grammar,
                )
                &&& i.pos() < i.tokens().len() ==> exists|t: &Node<Token>|
                    t@ == i.tokens()[i.pos() as int] && pred.ensures((t,), false)
            },
        },
{
    match i.head() {
        Some(t) => {
            if pred(t) {
                Ok((i.advance(), t))
            } else {
                i.no_match()
            }
        },
        None => i.no_match(),
    }
}

/// Runs `action` on the head token: on `Some(v)` advances and yields `v`,
/// on `None` gives up.
pub fn token_action<'a, T, F: Fn(&Node<Token>) -> Option<T>>(i: Input<'a>, action: F) -> (r:
    KResult<'a, T>)
    requires
        forall|t: &Node<Token>| action.requires((t,)),
    ensures
        match r {
            Ok((j, v)) => {
                &&& j.tokens() == i.tokens()
                &&& j.pos() == i.pos() + 1
                &&& i.pos() < i.tokens().len()
                &&& exists|t: &Node<Token>|
                    t@ == i.tokens()[i.pos() as int] && action.ensures((t,), Some(v))
            },
            Err(e) => {
                &&& e == KError::spec_error(
                    grammar::head_span(i.tokens(), i.pos()),
                    ErrorKind::Grammar,
                )
                &&& i.pos() < i.tokens().len() ==> exists|t: &Node<Token>|
                    t@ == i.tokens()[i.pos() as int] && action.ensures((t,), None)
            },
        },
{
    match i.head() {
        Some(t) => {
            match action(t) {
                Some(v) => Ok((i.advance(), v)),
                None => i.no_match(),
            }
        },
        None => i.no_match(),
    }
}

} // verus!
