use kismet::ast::rewrite::{rewrite_atom, rewrite_expr};
use kismet::ast::{
    Atom, DictItem, Expr, ListItem, OpArith, Primary, Target, TargetDictItem, TargetListItem,
};
use kismet::types::{Node, Span};

fn sp(start: usize, end: usize) -> Span {
    Span { start, end }
}

fn id(start: usize, end: usize, name: &str) -> Node<Expr> {
    Node::new(sp(start, end), Expr::Primary(Primary::Atom(Atom::Id(name.to_string()))))
}

fn num(start: usize, end: usize, n: i32) -> Node<Expr> {
    Node::new(sp(start, end), Expr::Primary(Primary::Atom(Atom::Integer(n))))
}

fn plain(e: Node<Expr>) -> Node<ListItem> {
    let Node { span, data } = e;
    Node::new(span, ListItem::Expr(*data))
}

fn atom_expr(span: Span, a: Atom) -> Node<Expr> {
    Node::new(span, Expr::Primary(Primary::Atom(a)))
}

#[test]
fn identifier_becomes_a_name() {
    assert_eq!(
        Node::<Target>::try_from_expr(id(3, 4, "x")),
        Ok(Node::new(sp(3, 4), Target::Id("x".to_string())))
    );
    assert_eq!(
        rewrite_atom(sp(1, 2), Atom::Id("y".to_string())),
        Ok(Node::new(sp(1, 2), Target::Id("y".to_string())))
    );
    assert_eq!(
        Node::<Target>::try_from_atom(Node::new(sp(1, 2), Atom::Id("y".to_string()))),
        Ok(Node::new(sp(1, 2), Target::Id("y".to_string())))
    );
}

#[test]
fn parenthesised_item_becomes_a_tuple_of_one() {
    let e = atom_expr(sp(0, 3), Atom::Paren(plain(id(1, 2, "a"))));
    assert_eq!(
        Node::<Target>::try_from_expr(e),
        Ok(Node::new(
            sp(0, 3),
            Target::TargetTuple(vec![Node::new(
                sp(1, 2),
                TargetListItem::Target(Target::Id("a".to_string()))
            )])
        ))
    );
}

#[test]
fn tuple_and_list_keep_their_items_in_order() {
    let items = || {
        vec![
            plain(id(1, 2, "a")),
            Node::new(sp(4, 8), ListItem::Spread(id(7, 8, "b"))),
        ]
    };
    let targets = || {
        vec![
            Node::new(sp(1, 2), TargetListItem::Target(Target::Id("a".to_string()))),
            Node::new(
                sp(7, 8),
                TargetListItem::Spread(Node::new(sp(7, 8), Target::Id("b".to_string()))),
            ),
        ]
    };
    assert_eq!(
        rewrite_atom(sp(0, 9), Atom::Tuple(items())),
        Ok(Node::new(sp(0, 9), Target::TargetTuple(targets())))
    );
    assert_eq!(
        rewrite_atom(sp(0, 9), Atom::ListDisplay(items())),
        Ok(Node::new(sp(0, 9), Target::TargetList(targets())))
    );
    assert_eq!(
        rewrite_atom(sp(0, 2), Atom::Tuple(vec![])),
        Ok(Node::new(sp(0, 2), Target::TargetTuple(vec![])))
    );
}

#[test]
fn dict_keeps_keys_and_rewrites_values() {
    let dict = Atom::DictDisplay(vec![
        Node::new(sp(1, 2), DictItem::Shorthand("k".to_string())),
        Node::new(
            sp(4, 8),
            DictItem::KeyVal { key: Node::new(sp(4, 5), "n".to_string()), val: id(7, 8, "v") },
        ),
        Node::new(sp(10, 14), DictItem::Spread(id(13, 14, "r"))),
    ]);
    assert_eq!(
        rewrite_atom(sp(0, 15), dict),
        Ok(Node::new(
            sp(0, 15),
            Target::TargetDict(vec![
                Node::new(sp(1, 2), TargetDictItem::Shorthand("k".to_string())),
                Node::new(
                    sp(4, 8),
                    TargetDictItem::Pair {
                        key: Node::new(sp(4, 5), "n".to_string()),
                        val: Node::new(sp(7, 8), Target::Id("v".to_string())),
                    }
                ),
                Node::new(
                    sp(13, 14),
                    TargetDictItem::Spread(Node::new(sp(13, 14), Target::Id("r".to_string())))
                ),
            ])
        ))
    );
}

#[test]
fn nesting_is_rewritten_all_the_way_down() {
    let inner = atom_expr(sp(4, 10), Atom::ListDisplay(vec![plain(id(5, 6, "b")), plain(id(8, 9, "c"))]));
    let outer = atom_expr(sp(0, 11), Atom::Tuple(vec![plain(id(1, 2, "a")), plain(inner)]));
    match Node::<Target>::try_from_expr(outer) {
        Ok(t) => match *t.data {
            Target::TargetTuple(items) => {
                assert_eq!(items.len(), 2);
                match &*items[1].data {
                    TargetListItem::Target(Target::TargetList(inner)) => assert_eq!(inner.len(), 2),
                    other => panic!("unexpected {:?}", other),
                }
                assert_eq!(items[1].span, sp(4, 10));
            }
            other => panic!("unexpected {:?}", other),
        },
        Err(()) => panic!("no target"),
    }
}

#[test]
fn anything_else_is_no_pattern() {
    let sum = || {
        Node::new(
            sp(1, 4),
            Expr::Arith(num(1, 2, 1), Node::new(sp(2, 3), OpArith::ADD), num(3, 4, 2)),
        )
    };
    assert_eq!(Node::<Target>::try_from_expr(sum()), Err(()));
    assert_eq!(Node::<Target>::try_from_expr(num(0, 1, 1)), Err(()));
    assert_eq!(rewrite_atom(sp(0, 1), Atom::Null), Err(()));
    assert_eq!(rewrite_atom(sp(0, 1), Atom::String("s".to_string())), Err(()));
    assert_eq!(rewrite_atom(sp(0, 1), Atom::Boolean(true)), Err(()));
    assert_eq!(rewrite_atom(sp(0, 5), Atom::Paren(plain(sum()))), Err(()));
    assert_eq!(
        rewrite_expr(
            sp(0, 3),
            Expr::Primary(Primary::Attribute(
                Node::new(sp(0, 1), Primary::Atom(Atom::Id("a".to_string()))),
                Node::new(sp(2, 3), "b".to_string())
            ))
        ),
        Err(())
    );
}

#[test]
fn one_bad_item_rejects_the_whole() {
    let items = vec![plain(id(1, 2, "a")), plain(num(4, 5, 1)), plain(id(7, 8, "c"))];
    assert_eq!(rewrite_atom(sp(0, 9), Atom::Tuple(items)), Err(()));
    let dict = Atom::DictDisplay(vec![
        Node::new(sp(1, 2), DictItem::Shorthand("k".to_string())),
        Node::new(
            sp(4, 8),
            DictItem::KeyVal { key: Node::new(sp(4, 5), "n".to_string()), val: num(7, 8, 1) },
        ),
    ]);
    assert_eq!(rewrite_atom(sp(0, 9), dict), Err(()));
    let spread = Atom::ListDisplay(vec![Node::new(sp(1, 5), ListItem::Spread(num(4, 5, 1)))]);
    assert_eq!(rewrite_atom(sp(0, 6), spread), Err(()));
}

#[test]
fn name_of_an_identifier_expression() {
    assert_eq!(
        Node::<String>::try_from_expr(&id(3, 4, "x")),
        Ok(Node::new(sp(3, 4), "x".to_string()))
    );
    assert_eq!(Node::<String>::try_from_expr(&num(3, 4, 1)), Err(()));
}
