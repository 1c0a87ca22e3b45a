use super::span::Span;
use vstd::prelude::*;
use vstd::std_specs::convert::FromSpecImpl;

verus! {

/// A value paired with the span of source text that it was read from.
#[derive(Clone, Debug, PartialEq)]
pub struct Node<T> {
    pub span: Span,
    pub data: Box<T>,
}

/// A value paired with a span that may be unknown.
#[derive(Clone, Debug, PartialEq)]
pub struct ONode<T> {
    pub span: Option<Span>,
    pub data: Box<T>,
}

impl<T> Node<T> {
    /// A node of `data` under `span`.
    pub fn new(span: Span, data: T) -> (n: Node<T>)
        ensures
            n == (Node { span, data: Box::new(data) }),
    {
        Node { span, data: Box::new(data) }
    }
}

impl<T> ONode<T> {
    /// A node of `data` under a span that may be unknown.
    pub fn new(span: Option<Span>, data: T) -> (n: ONode<T>)
        ensures
            n == (ONode { span, data: Box::new(data) }),
    {
        ONode { span, data: Box::new(data) }
    }
}

impl<T: View> View for Node<T> {
    type V = Node<T::V>;

    open spec fn view(&self) -> Node<T::V> {
        Node { span: self.span, data: Box::new(self.data.view()) }
    }
}

impl<'a, T> FromSpecImpl<&'a Node<T>> for Span {
    open spec fn obeys_from_spec() -> bool {
        true
    }

    open spec fn from_spec(v: &'a Node<T>) -> Span {
        v.span
    }
}

impl<'a, T> From<&'a Node<T>> for Span {
    fn from(v: &'a Node<T>) -> (r: Span) {
        v.span
    }
}

/// The canonical text of a value.
pub trait Render {
    spec fn rendering(&self) -> Seq<char>;

    fn render(&self) -> (s: String)
        ensures
            s@ == self.rendering(),
    ;
}

impl<T: Render> Render for Node<T> {
    open spec fn rendering(&self) -> Seq<char> {
        self.data.rendering()
    }

    fn render(&self) -> (s: String) {
        self.data.render()
    }
}

/// The texts of `items`, with `sep` between each two neighbours.
pub open spec fn joined(items: Seq<Seq<char>>, sep: Seq<char>) -> Seq<char>
    decreases items.len(),
{
    if items.len() == 0 {
        Seq::empty()
    } else if items.len() == 1 {
        items[0]
    } else {
        joined(items.drop_last(), sep) + sep + items.last()
    }
}

/// Joining one more text adds the separator and that text.
pub proof fn lemma_joined_step(texts: Seq<Seq<char>>, i: int, sep: Seq<char>)
    requires
        0 <= i < texts.len(),
    ensures
        joined(texts.take(i + 1), sep) == if i == 0 {
            texts[0]
        } else {
            joined(texts.take(i), sep) + sep + texts[i]
        },
        texts.take(texts.len() as int) == texts,
        joined(texts.take(0), sep) == Seq::<char>::empty(),
{
    assert(texts.take(i + 1).drop_last() =~= texts.take(i));
    assert(texts.take(i + 1).last() == texts[i]);
    assert(texts.take(texts.len() as int) =~= texts);
}

impl<T: Render> Node<T> {
    /// The canonical texts of the nodes of a sequence.
    pub open spec fn renderings(nodes: Seq<Node<T>>) -> Seq<Seq<char>> {
        Seq::new(nodes.len(), |i: int| nodes[i].rendering())
    }

    /// Renders every node and joins the texts with `sep`.
    pub fn join(nodes: &Vec<Node<T>>, sep: &str) -> (s: String)
        ensures
            s@ == joined(Self::renderings(nodes@), sep@),
    {
        let mut out = String::new();
        let mut i: usize = 0;
        while i < nodes.len()
            invariant
                i <= nodes@.len(),
                out@ == joined(Self::renderings(nodes@.take(i as int)), sep@),
            decreases nodes@.len() - i,
        {
            let text = nodes[i].render();
            proof {
                let before = Self::renderings(nodes@.take(i as int));
                let after = Self::renderings(nodes@.take(i + 1));
                assert(after.drop_last() =~= before);
                assert(after.last() == nodes@[i as int].rendering());
                if i > 0 {
                    assert(out@ + sep@ + text@ == joined(after, sep@));
                } else {
                    assert(Seq::<char>::empty() + text@ =~= text@);
                }
            }
            if i > 0 {
                out.append(sep);
            }
            out.append(text.as_str());
            i += 1;
        }
        proof {
            assert(nodes@.take(i as int) =~= nodes@);
        }
        out
    }

    /// The same text as [`Node::join`].
    pub fn vec_to_string(nodes: &Vec<Node<T>>, sep: &str) -> (s: String)
        ensures
            s@ == joined(Self::renderings(nodes@), sep@),
    {
        Self::join(nodes, sep)
    }
}

} // verus!
