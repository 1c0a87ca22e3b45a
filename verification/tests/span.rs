use kismet::parser::{ErrorKind, KError};
use kismet::types::{Node, ONode, SliceSpan, Span};

fn sp(start: usize, end: usize) -> Span {
    Span { start, end }
}

#[test]
fn new_keeps_both_ends() {
    assert_eq!(Span::new(2..7), sp(2, 7));
    assert_eq!(Span::new(4..4), sp(4, 4));
}

#[test]
fn len_is_end_minus_start() {
    assert_eq!(sp(2, 7).len(), 5);
    assert_eq!(sp(3, 3).len(), 0);
}

#[test]
fn from_text_spans_its_bytes() {
    assert_eq!(Span::from("2+3"), sp(0, 3));
    assert_eq!(Span::from(""), sp(0, 0));
    assert_eq!(Span::from("é"), sp(0, 2));
    assert_eq!(Span::from(String::from("2+3*4")), sp(0, 5));
    assert_eq!(Span::from(String::new()), sp(0, 0));
    assert_eq!(Span::from(String::from("é")), sp(0, 2));
    assert_eq!(Span::from(3..9), sp(3, 9));
    assert_eq!(Span::from(&sp(1, 2)), sp(1, 2));
}

#[test]
fn from_node_is_its_span() {
    let n = Node::new(sp(4, 9), 17u8);
    assert_eq!(Span::from(&n), sp(4, 9));
}

#[test]
fn plus_is_the_hull() {
    assert_eq!(sp(2, 4) + sp(6, 9), sp(2, 9));
    assert_eq!(sp(6, 9) + sp(2, 4), sp(2, 9));
    assert_eq!(sp(2, 9) + sp(3, 4), sp(2, 9));
    assert_eq!(sp(3, 4) + sp(3, 4), sp(3, 4));
}

#[test]
fn plus_is_associative_on_three_spans() {
    let (a, b, c) = (sp(5, 6), sp(1, 2), sp(8, 11));
    assert_eq!((a + b) + c, a + (b + c));
    assert_eq!((a + b) + c, sp(1, 11));
}

#[test]
fn plus_lifts_to_options() {
    assert_eq!(sp(2, 4) + Some(sp(6, 9)), sp(2, 9));
    assert_eq!(sp(2, 4) + None::<Span>, sp(2, 4));
    assert_eq!(Some(sp(6, 9)) + sp(2, 4), sp(2, 9));
    assert_eq!(None::<Span> + sp(2, 4), sp(2, 4));
}

#[test]
fn add_option_has_none_as_identity() {
    assert_eq!(Span::add_option(Some(sp(1, 2)), Some(sp(5, 6))), Some(sp(1, 6)));
    assert_eq!(Span::add_option(Some(sp(1, 2)), None), Some(sp(1, 2)));
    assert_eq!(Span::add_option(None, Some(sp(5, 6))), Some(sp(5, 6)));
    assert_eq!(Span::add_option(None, None), None);
}

#[test]
fn add_option_ref_has_none_as_identity() {
    let (a, b) = (sp(1, 2), sp(5, 6));
    assert_eq!(Span::add_option_ref(Some(&a), Some(&b)), Some(sp(1, 6)));
    assert_eq!(Span::add_option_ref(Some(&a), None), Some(a));
    assert_eq!(Span::add_option_ref(None, Some(&b)), Some(b));
    assert_eq!(Span::add_option_ref(None, None), None);
}

#[test]
fn get_option_lifts_the_conversion() {
    assert_eq!(Span::get_option(&Some(Node::new(sp(3, 5), 'x'))), Some(sp(3, 5)));
    assert_eq!(Span::get_option(&None::<Node<char>>), None);
}

#[test]
fn reduce_is_the_hull_of_all() {
    let nodes = vec![
        Node::new(sp(4, 5), 1),
        Node::new(sp(1, 2), 2),
        Node::new(sp(7, 9), 3),
    ];
    assert_eq!(Span::reduce(&nodes), Some(sp(1, 9)));
    assert_eq!(Span::reduce(&vec![Node::new(sp(4, 5), 1)]), Some(sp(4, 5)));
    assert_eq!(Span::reduce(&Vec::<Node<i32>>::new()), None);
}

#[test]
fn reduce_ref_is_the_hull_of_all() {
    let (a, b) = (Node::new(sp(4, 5), 1), Node::new(sp(1, 2), 2));
    assert_eq!(Span::reduce_ref(&vec![&a, &b]), Some(sp(1, 5)));
    assert_eq!(Span::reduce_ref(&Vec::<&Node<i32>>::new()), None);
}

#[test]
fn reduce_ok_fails_at_runtime_on_nothing() {
    let nodes = vec![Node::new(sp(4, 5), 1), Node::new(sp(1, 2), 2)];
    assert_eq!(Span::reduce_ok(&nodes), Ok(sp(1, 5)));
    assert_eq!(
        Span::reduce_ok(&Vec::<Node<i32>>::new()),
        Err(KError::Failure(ONode::new(None, ErrorKind::Runtime)))
    );
    let a = Node::new(sp(4, 5), 1);
    assert_eq!(Span::reduce_ref_ok(&vec![&a]), Ok(sp(4, 5)));
    assert_eq!(
        Span::reduce_ref_ok(&Vec::<&Node<i32>>::new()),
        Err(KError::Failure(ONode::new(None, ErrorKind::Runtime)))
    );
}

#[test]
fn get0_is_the_first_span() {
    let nodes = vec![Node::new(sp(4, 5), 1), Node::new(sp(1, 2), 2)];
    assert_eq!(Span::get0(&nodes), Some(sp(4, 5)));
    assert_eq!(Span::get0(&Vec::<Node<i32>>::new()), None);
}

#[test]
fn slice_counts_from_the_start_of_the_span() {
    let s = sp(10, 20);
    assert_eq!(s.slice(3usize), sp(13, 13));
    assert_eq!(s.slice(2..5), sp(12, 15));
    assert_eq!(s.slice(4..), sp(14, 20));
    assert_eq!(s.slice(..6), sp(10, 16));
    assert_eq!((2..5).slice_span(&s), sp(12, 15));
}

#[test]
fn join_puts_the_separator_between() {
    let names = vec![
        Node::new(sp(0, 1), String::from("a")),
        Node::new(sp(2, 3), String::from("b")),
        Node::new(sp(4, 5), String::from("c")),
    ];
    assert_eq!(Node::join(&names, ", "), "a, b, c");
    assert_eq!(Node::vec_to_string(&names, "\n"), "a\nb\nc");
    assert_eq!(Node::join(&Vec::<Node<String>>::new(), ", "), "");
    assert_eq!(Node::join(&vec![Node::new(sp(0, 1), String::from("a"))], ", "), "a");
}

#[test]
fn plus_takes_references() {
    let (a, b) = (sp(2, 4), sp(6, 9));
    assert_eq!(&a + &b, sp(2, 9));
    assert_eq!(a + &b, sp(2, 9));
    assert_eq!(&a + b, sp(2, 9));
    assert_eq!(a + Some(&b), sp(2, 9));
    assert_eq!(a + None::<&Span>, a);
    assert_eq!(Some(&b) + a, sp(2, 9));
    assert_eq!(None::<&Span> + a, a);
}

#[test]
fn full_range_selects_the_whole_span() {
    let s = sp(10, 20);
    assert_eq!(s[..], s);
    assert_eq!(s[..].len(), 10);
}
