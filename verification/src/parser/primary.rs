use super::make;
use super::make::Suffix;
use super::error::KError;
use super::expr::expr;
use super::grammar;
use super::input::{agrees, token_tag, Input, KResult};
use crate::ast::model::{dict_item_nodes_view, expr_nodes_view, list_item_nodes_view};
use crate::ast::{Atom, DictItem, Expr, ListItem, Primary};
use crate::token::{lemma_tag_models, lemma_token_model, Token};
use crate::types::{Node, Span};
use vstd::prelude::*;

verus! {

/// A run of items agrees with the model: it may be empty, and then the
/// cursor has not moved.
pub open spec fn agrees_items<'a, T, V>(
    i: Input<'a>,
    r: KResult<'a, Vec<T>>,
    items: Seq<V>,
    model: grammar::SResult<Seq<V>>,
) -> bool {
    match r {
        Ok((j, v)) => {
            &&& j.tokens() == i.tokens()
            &&& i.pos() <= j.pos() <= i.tokens().len()
            &&& model == Ok::<(nat, Seq<V>), KError>((j.pos(), items))
        },
        Err(e) => model == Err::<(nat, Seq<V>), KError>(e),
    }
}

/// The deep model of what a run of expressions returned.
pub open spec fn exprs_of<'a>(r: KResult<'a, Vec<Node<Expr>>>) -> Seq<Node<crate::ast::ExprV>> {
    match r {
        Ok((_, v)) => expr_nodes_view(v@),
        Err(_) => Seq::empty(),
    }
}

/// The deep model of what a run of items returned.
pub open spec fn list_items_of<'a>(r: KResult<'a, Vec<Node<ListItem>>>) -> Seq<
    Node<crate::ast::ListItemV>,
> {
    match r {
        Ok((_, v)) => list_item_nodes_view(v@),
        Err(_) => Seq::empty(),
    }
}

/// The deep model of what a run of dict items returned.
pub open spec fn dict_items_of<'a>(r: KResult<'a, Vec<Node<DictItem>>>) -> Seq<
    Node<crate::ast::DictItemV>,
> {
    match r {
        Ok((_, v)) => dict_item_nodes_view(v@),
        Err(_) => Seq::empty(),
    }
}

/// A numeric literal, as an atom.
pub fn numeric_literal<'a>(i: Input<'a>) -> (r: KResult<'a, Node<Atom>>)
    ensures
        agrees(i, r, grammar::numeric_literal(i.tokens(), i.pos())),
{
    match i.head() {
        Some(t) => match &*t.data {
            Token::Integer(n) => Ok((i.advance(), Node::new(t.span, Atom::Integer(*n)))),
            _ => i.no_match(),
        },
        None => i.no_match(),
    }
}

/// A terminal form: an identifier, a literal, or a bracketed display.
pub fn atom<'a>(i: Input<'a>) -> (r: KResult<'a, Node<Atom>>)
    ensures
        agrees(i, r, grammar::atom(i.tokens(), i.pos())),
    decreases i.remaining(), 0nat,
{
    proof {
        lemma_tag_models();
    }
    let t = match i.head() {
        Some(t) => t,
        None => {
            return i.no_match();
        },
    };
    let open = t.span;
    proof {
        lemma_token_model(*t.data);
    }
    match &*t.data {
        Token::Id(x) => Ok((i.advance(), make::id_atom(open, x.clone()))),
        Token::String(x) => Ok((i.advance(), make::string_atom(open, x.clone()))),
        Token::Boolean(b) => Ok((i.advance(), Node::new(open, Atom::Boolean(*b)))),
        Token::NULL => Ok((i.advance(), Node::new(open, Atom::Null))),
        Token::LPAREN => paren_rest(i.advance(), open),
        Token::LBRACKET => list_rest(i.advance(), open),
        Token::LBRACE => dict_rest(i.advance(), open),
        _ => i.no_match(),
    }
}

/// What follows an opening parenthesis: items and the closing parenthesis.
fn paren_rest<'a>(i: Input<'a>, open: Span) -> (r: KResult<'a, Node<Atom>>)
    ensures
        agrees(i, r, grammar::paren_rest(i.tokens(), i.pos(), open)),
    decreases i.remaining(), 21nat,
{
    proof {
        lemma_tag_models();
    }
    let (i1, items) = list_items(i)?;
    let (i2, close) = token_tag(i1, &Token::RPAREN)?;
    Ok((i2, make::grouped(open + close.span, items)))
}

/// What follows an opening bracket: items and the closing bracket.
fn list_rest<'a>(i: Input<'a>, open: Span) -> (r: KResult<'a, Node<Atom>>)
    ensures
        agrees(i, r, grammar::list_rest(i.tokens(), i.pos(), open)),
    decreases i.remaining(), 21nat,
{
    proof {
        lemma_tag_models();
    }
    let (i1, items) = list_items(i)?;
    let (i2, close) = token_tag(i1, &Token::RBRACKET)?;
    Ok((i2, make::list_display(open + close.span, items)))
}

/// What follows an opening brace: dict items and the closing brace.
fn dict_rest<'a>(i: Input<'a>, open: Span) -> (r: KResult<'a, Node<Atom>>)
    ensures
        agrees(i, r, grammar::dict_rest(i.tokens(), i.pos(), open)),
    decreases i.remaining(), 21nat,
{
    proof {
        lemma_tag_models();
    }
    let (i1, items) = dict_items(i)?;
    let (i2, close) = token_tag(i1, &Token::RBRACE)?;
    Ok((i2, make::dict_display(open + close.span, items)))
}

/// One item of a tuple, a list display or a call: an expression, or a
/// spread expression.
pub fn list_item<'a>(i: Input<'a>) -> (r: KResult<'a, Node<ListItem>>)
    ensures
        agrees(i, r, grammar::list_item(i.tokens(), i.pos())),
    decreases i.remaining(), 19nat,
{
    proof {
        lemma_tag_models();
    }
    match token_tag(i, &Token::SPREAD) {
        Ok((i1, op)) => match expr(i1) {
            Ok((i2, e)) => Ok((i2, make::spread_item(op.span, e))),
            Err(e) => Err(e),
        },
        Err(_) => match expr(i) {
            Ok((i1, e)) => Ok((i1, make::plain_item(e))),
            Err(e) => Err(e),
        },
    }
}

/// One item of a dict display: a spread expression, a key with its value,
/// or a key alone.
pub fn dict_item<'a>(i: Input<'a>) -> (r: KResult<'a, Node<DictItem>>)
    ensures
        agrees(i, r, grammar::dict_item(i.tokens(), i.pos())),
    decreases i.remaining(), 19nat,
{
    proof {
        lemma_tag_models();
    }
    match token_tag(i, &Token::SPREAD) {
        Ok((i1, op)) => {
            let (i2, e) = expr(i1)?;
            Ok((i2, make::dict_spread(op.span, e)))
        },
        Err(_) => {
            let t = match i.head() {
                Some(t) => t,
                None => {
                    return i.no_match();
                },
            };
            proof {
                lemma_token_model(*t.data);
            }
            match &*t.data {
                Token::Id(x) => {
                    let i1 = i.advance();
                    match token_tag(i1, &Token::COLON) {
                        Ok((i2, _)) => {
                            let (i3, e) = expr(i2)?;
                            Ok((i3, make::key_val(t.span, x.clone(), e)))
                        },
                        Err(_) => Ok((i1, make::shorthand(t.span, x.clone()))),
                    }
                },
                _ => i.no_match(),
            }
        },
    }
}

/// Expressions separated by commas, possibly none.
pub fn expr_items<'a>(i: Input<'a>) -> (r: KResult<'a, Vec<Node<Expr>>>)
    ensures
        agrees_items(i, r, exprs_of(r), grammar::expr_items(i.tokens(), i.pos())),
    decreases i.remaining(), 20nat,
{
    let mut items: Vec<Node<Expr>> = Vec::new();
    let (first_end, first) = match expr(i) {
        Ok(x) => x,
        Err(KError::Error(_)) => {
            let _ = i.is_empty();
            assert(expr_nodes_view(items@) =~= Seq::empty());
            return Ok((i, items));
        },
        Err(e) => {
            return Err(e);
        },
    };
    let mut cur = first_end;
    items.push(first);
    assert(expr_nodes_view(items@) =~= seq![first@]);
    loop
        invariant
            cur.tokens() == i.tokens(),
            i.pos() < cur.pos() <= i.tokens().len(),
            grammar::expr_items(i.tokens(), i.pos()) == grammar::more_expr_items(
                i.tokens(),
                cur.pos(),
                expr_nodes_view(items@),
            ),
        decreases cur.remaining(),
    {
        let after = match token_tag(cur, &Token::COMMA) {
            Ok((j, _)) => j,
            Err(_) => {
                return Ok((cur, items));
            },
        };
        match expr(after) {
            Ok((j, x)) => {
                assert(expr_nodes_view(items@.push(x)) =~= expr_nodes_view(items@).push(x@));
                items.push(x);
                cur = j;
            },
            Err(KError::Error(_)) => {
                return Ok((cur, items));
            },
            Err(e) => {
                return Err(e);
            },
        }
    }
}

/// Items separated by commas, possibly none.
pub fn list_items<'a>(i: Input<'a>) -> (r: KResult<'a, Vec<Node<ListItem>>>)
    ensures
        agrees_items(i, r, list_items_of(r), grammar::list_items(i.tokens(), i.pos())),
    decreases i.remaining(), 20nat,
{
    let mut items: Vec<Node<ListItem>> = Vec::new();
    let (first_end, first) = match list_item(i) {
        Ok(x) => x,
        Err(KError::Error(_)) => {
            let _ = i.is_empty();
            assert(list_item_nodes_view(items@) =~= Seq::empty());
            return Ok((i, items));
        },
        Err(e) => {
            return Err(e);
        },
    };
    let mut cur = first_end;
    items.push(first);
    assert(list_item_nodes_view(items@) =~= seq![first@]);
    loop
        invariant
            cur.tokens() == i.tokens(),
            i.pos() < cur.pos() <= i.tokens().len(),
            grammar::list_items(i.tokens(), i.pos()) == grammar::more_list_items(
                i.tokens(),
                cur.pos(),
                list_item_nodes_view(items@),
            ),
        decreases cur.remaining(),
    {
        let after = match token_tag(cur, &Token::COMMA) {
            Ok((j, _)) => j,
            Err(_) => {
                return Ok((cur, items));
            },
        };
        match list_item(after) {
            Ok((j, x)) => {
                assert(list_item_nodes_view(items@.push(x)) =~= list_item_nodes_view(items@).push(
                    x@,
                ));
                items.push(x);
                cur = j;
            },
            Err(KError::Error(_)) => {
                return Ok((cur, items));
            },
            Err(e) => {
                return Err(e);
            },
        }
    }
}

/// Dict items separated by commas, possibly none.
pub fn dict_items<'a>(i: Input<'a>) -> (r: KResult<'a, Vec<Node<DictItem>>>)
    ensures
        agrees_items(i, r, dict_items_of(r), grammar::dict_items(i.tokens(), i.pos())),
    decreases i.remaining(), 20nat,
{
    let mut items: Vec<Node<DictItem>> = Vec::new();
    let (first_end, first) = match dict_item(i) {
        Ok(x) => x,
        Err(KError::Error(_)) => {
            let _ = i.is_empty();
            assert(dict_item_nodes_view(items@) =~= Seq::empty());
            return Ok((i, items));
        },
        Err(e) => {
            return Err(e);
        },
    };
    let mut cur = first_end;
    items.push(first);
    assert(dict_item_nodes_view(items@) =~= seq![first@]);
    loop
        invariant
            cur.tokens() == i.tokens(),
            i.pos() < cur.pos() <= i.tokens().len(),
            grammar::dict_items(i.tokens(), i.pos()) == grammar::more_dict_items(
                i.tokens(),
                cur.pos(),
                dict_item_nodes_view(items@),
            ),
        decreases cur.remaining(),
    {
        let after = match token_tag(cur, &Token::COMMA) {
            Ok((j, _)) => j,
            Err(_) => {
                return Ok((cur, items));
            },
        };
        match dict_item(after) {
            Ok((j, x)) => {
                assert(dict_item_nodes_view(items@.push(x)) =~= dict_item_nodes_view(items@).push(
                    x@,
                ));
                items.push(x);
                cur = j;
            },
            Err(KError::Error(_)) => {
                return Ok((cur, items));
            },
            Err(e) => {
                return Err(e);
            },
        }
    }
}

/// One suffix of a postfix chain, under the span of its last token.
pub fn suffix<'a>(i: Input<'a>) -> (r: KResult<'a, Node<Suffix>>)
    ensures
        agrees(i, r, grammar::suffix(i.tokens(), i.pos())),
    decreases i.remaining(), 0nat,
{
    proof {
        lemma_tag_models();
    }
    let t = match i.head() {
        Some(t) => t,
        None => {
            return i.no_match();
        },
    };
    proof {
        lemma_token_model(*t.data);
    }
    match &*t.data {
        Token::DOT => {
            let i1 = i.advance();
            let name = match i1.head() {
                Some(name) => name,
                None => {
                    return i1.no_match();
                },
            };
            proof {
                lemma_token_model(*name.data);
            }
            match &*name.data {
                Token::Id(x) => Ok((i1.advance(), make::attribute(name.span, x.clone()))),
                _ => i1.no_match(),
            }
        },
        Token::LBRACKET => {
            let (i1, items) = expr_items(i.advance())?;
            let (i2, close) = token_tag(i1, &Token::RBRACKET)?;
            Ok((i2, make::subscription(close.span, items)))
        },
        Token::LPAREN => {
            let (i1, items) = list_items(i.advance())?;
            let (i2, close) = token_tag(i1, &Token::RPAREN)?;
            Ok((i2, make::call(t.span, close.span, items)))
        },
        _ => i.no_match(),
    }
}

/// An atom with the suffixes that follow it, folded from the left.
pub fn primary<'a>(i: Input<'a>) -> (r: KResult<'a, Node<Primary>>)
    ensures
        agrees(i, r, grammar::primary(i.tokens(), i.pos())),
    decreases i.remaining(), 1nat,
{
    let (start, a) = atom(i)?;
    let mut lhs = make::atom_primary(a);
    let mut cur = start;
    loop
        invariant
            cur.tokens() == i.tokens(),
            i.pos() < cur.pos() <= i.tokens().len(),
            grammar::primary(i.tokens(), i.pos()) == grammar::primary_tail(
                i.tokens(),
                cur.pos(),
                lhs@,
            ),
        decreases cur.remaining(),
    {
        match suffix(cur) {
            Ok((j, s)) => {
                lhs = make::attach(lhs, s);
                cur = j;
            },
            Err(KError::Error(_)) => {
                return Ok((cur, lhs));
            },
            Err(e) => {
                return Err(e);
            },
        }
    }
}

} // verus!
