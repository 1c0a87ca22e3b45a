use kismet::ast::{render, Atom, DictItem, Expr, ListItem, OpArith, OpEqs, Primary, Range, Target};
use kismet::ast::{Args, TargetDictItem, TargetListItem};
use kismet::parser::{
    a_expr, adds, atom, c_expr, coefficient, die, eqs, expr, expr_list0, expr_list1, expr_node,
    muls, numeric_literal, parse, pow, primary, r_expr, ranges, token_action, token_if,
    token_tag, u_expr, ErrorKind, Input, KError,
};
use kismet::token::Token;
use kismet::types::{Node, ONode, Span};

fn sp(start: usize, end: usize) -> Span {
    Span { start, end }
}

fn word(text: &str) -> Token {
    if text == "and" {
        Token::AND
    } else if text == "or" {
        Token::OR
    } else if text == "not" {
        Token::NOT
    } else if text == "true" {
        Token::Boolean(true)
    } else if text == "false" {
        Token::Boolean(false)
    } else if text == "null" {
        Token::NULL
    } else {
        Token::Id(text.to_string())
    }
}

/// A small lexer for the tests: blanks separate, a line break or `;` is a
/// delimiter, and `d` directly in front of a digit is the die operator.
fn lex(text: &str) -> Vec<Node<Token>> {
    let chars: Vec<char> = text.chars().collect();
    let symbols = [
        ("...", Token::SPREAD),
        ("..=", Token::RANGEI),
        ("..", Token::RANGE),
        (":=", Token::ASSIGNE),
        ("==", Token::EQ),
        ("!=", Token::NE),
        ("<=", Token::LE),
        (">=", Token::GE),
        ("<", Token::LT),
        (">", Token::GT),
        ("+", Token::ADD),
        ("-", Token::SUB),
        ("*", Token::MUL),
        ("/", Token::DIV),
        ("%", Token::MOD),
        ("^", Token::POW),
        ("(", Token::LPAREN),
        (")", Token::RPAREN),
        ("[", Token::LBRACKET),
        ("]", Token::RBRACKET),
        ("{", Token::LBRACE),
        ("}", Token::RBRACE),
        (",", Token::COMMA),
        (":", Token::COLON),
        (".", Token::DOT),
        (";", Token::DELIM),
        ("\n", Token::DELIM),
    ];
    let mut out = Vec::new();
    let mut i = 0;
    while i < chars.len() {
        let c = chars[i];
        if c == ' ' {
            i += 1;
        } else if c.is_ascii_digit() {
            let start = i;
            let mut n: i32 = 0;
            while i < chars.len() && chars[i].is_ascii_digit() {
                n = n * 10 + chars[i].to_digit(10).unwrap() as i32;
                i += 1;
            }
            out.push(Node::new(sp(start, i), Token::Integer(n)));
        } else if c == 'd' && i + 1 < chars.len() && chars[i + 1].is_ascii_digit() {
            out.push(Node::new(sp(i, i + 1), Token::DIE));
            i += 1;
        } else if c.is_alphabetic() || c == '_' {
            let start = i;
            let mut name = String::new();
            while i < chars.len() && (chars[i].is_alphanumeric() || chars[i] == '_') {
                name.push(chars[i]);
                i += 1;
            }
            out.push(Node::new(sp(start, i), word(&name)));
        } else if c == '"' {
            let start = i;
            let mut s = String::new();
            i += 1;
            while i < chars.len() && chars[i] != '"' {
                s.push(chars[i]);
                i += 1;
            }
            i += 1;
            out.push(Node::new(sp(start, i), Token::String(s)));
        } else {
            let mut found = false;
            for (sym, tok) in symbols.iter() {
                let len = sym.chars().count();
                if i + len <= chars.len() && chars[i..i + len].iter().collect::<String>() == *sym
                {
                    out.push(Node::new(sp(i, i + len), tok.clone()));
                    i += len;
                    found = true;
                    break;
                }
            }
            assert!(found, "no token at {}", i);
        }
    }
    out
}

fn num(start: usize, end: usize, n: i32) -> Node<Expr> {
    Node::new(sp(start, end), Expr::Primary(Primary::Atom(Atom::Integer(n))))
}

fn id(start: usize, end: usize, name: &str) -> Node<Expr> {
    Node::new(sp(start, end), Expr::Primary(Primary::Atom(Atom::Id(name.to_string()))))
}

fn op(lhs: Node<Expr>, at: usize, o: OpArith, rhs: Node<Expr>) -> Node<Expr> {
    let span = lhs.span + rhs.span;
    Node::new(span, Expr::Arith(lhs, Node::new(sp(at, at + 1), o), rhs))
}

fn unary(at: usize, o: OpArith, rhs: Node<Expr>) -> Node<Expr> {
    let span = sp(at, at + 1) + rhs.span;
    Node::new(span, Expr::Unary(Node::new(sp(at, at + 1), o), rhs))
}

fn grammar_error(span: Option<Span>) -> ONode<ErrorKind> {
    ONode::new(span, ErrorKind::Grammar)
}

/// Parses `text`, checks the tree, and checks that its canonical text
/// parses to the same text again.
fn assert_stmt(expected: Node<Expr>, text: &str, rendered: &str) {
    let tree = parse(&lex(text)).unwrap();
    assert_eq!(tree, expected);
    assert_eq!(render(&tree), rendered);
    let again = parse(&lex(rendered)).unwrap();
    assert_eq!(render(&again), rendered);
}

#[test]
fn arithmetic() {
    assert_stmt(op(num(0, 1, 2), 1, OpArith::ADD, num(2, 3, 3)), "2+3", "2 + 3");
    assert_stmt(
        op(
            num(0, 1, 2),
            1,
            OpArith::ADD,
            op(num(2, 3, 3), 3, OpArith::ADD, num(4, 5, 4)),
        ),
        "2+3+4",
        "2 + 3 + 4",
    );
    assert_stmt(
        op(
            num(0, 1, 2),
            1,
            OpArith::ADD,
            op(num(2, 3, 3), 3, OpArith::MUL, num(4, 5, 4)),
        ),
        "2+3*4",
        "2 + 3*4",
    );
    assert_stmt(
        op(
            op(num(0, 1, 2), 1, OpArith::POW, num(2, 3, 5)),
            3,
            OpArith::ADD,
            op(
                num(4, 5, 3),
                5,
                OpArith::MUL,
                op(num(6, 7, 4), 7, OpArith::POW, num(8, 9, 6)),
            ),
        ),
        "2^5+3*4^6",
        "2^5 + 3*4^6",
    );
    assert_stmt(unary(0, OpArith::ADD, num(1, 2, 3)), "+3", "+3");
    assert_stmt(unary(0, OpArith::SUB, num(1, 2, 3)), "-3", "-3");
    assert_stmt(
        op(num(0, 1, 2), 1, OpArith::ADD, unary(2, OpArith::ADD, num(3, 4, 3))),
        "2++3",
        "2 + +3",
    );
    assert_stmt(
        op(num(0, 1, 2), 1, OpArith::SUB, unary(2, OpArith::SUB, num(3, 4, 3))),
        "2--3",
        "2 - -3",
    );
    assert_stmt(
        op(num(0, 1, 2), 1, OpArith::MUL, unary(2, OpArith::ADD, num(3, 4, 3))),
        "2*+3",
        "2*+3",
    );
    assert_stmt(
        op(num(0, 1, 2), 1, OpArith::MUL, unary(2, OpArith::SUB, num(3, 4, 3))),
        "2*-3",
        "2*-3",
    );
}

#[test]
fn sum_of_two() {
    assert_stmt(op(num(0, 1, 2), 1, OpArith::ADD, num(2, 3, 3)), "2+3", "2 + 3");
}

#[test]
fn sums_group_to_the_right() {
    let tree = parse(&lex("1-2-3")).unwrap();
    assert_eq!(
        tree,
        op(
            num(0, 1, 1),
            1,
            OpArith::SUB,
            op(num(2, 3, 2), 3, OpArith::SUB, num(4, 5, 3)),
        )
    );
}

#[test]
fn products_and_powers_group_to_the_right() {
    assert_eq!(
        parse(&lex("8/4/2")).unwrap(),
        op(
            num(0, 1, 8),
            1,
            OpArith::DIV,
            op(num(2, 3, 4), 3, OpArith::DIV, num(4, 5, 2)),
        )
    );
    assert_eq!(
        parse(&lex("2^3^4")).unwrap(),
        op(
            num(0, 1, 2),
            1,
            OpArith::POW,
            op(num(2, 3, 3), 3, OpArith::POW, num(4, 5, 4)),
        )
    );
    assert_eq!(render(&parse(&lex("7%3/2")).unwrap()), "7 % 3 / 2");
}

#[test]
fn product_binds_tighter_than_sum() {
    assert_eq!(
        parse(&lex("2*3+4")).unwrap(),
        op(
            op(num(0, 1, 2), 1, OpArith::MUL, num(2, 3, 3)),
            3,
            OpArith::ADD,
            num(4, 5, 4),
        )
    );
}

#[test]
fn unary_sign_is_read_once() {
    assert_eq!(parse(&lex("+3")).unwrap(), unary(0, OpArith::ADD, num(1, 2, 3)));
    assert_eq!(parse(&lex("--3")), Err(grammar_error(Some(sp(0, 1)))));
}

#[test]
fn coefficient_of_a_die() {
    let tree = parse(&lex("3d6")).unwrap();
    let die = Node::new(sp(1, 3), Expr::Die(Node::new(sp(2, 3), Atom::Integer(6))));
    assert_eq!(
        tree,
        Node::new(sp(0, 3), Expr::Coefficient(Node::new(sp(0, 1), Atom::Integer(3)), die))
    );
    assert_eq!(render(&tree), "3d6");
}

#[test]
fn die_alone() {
    let tree = parse(&lex("d20")).unwrap();
    assert_eq!(
        tree,
        Node::new(sp(0, 3), Expr::Die(Node::new(sp(1, 3), Atom::Integer(20))))
    );
    assert_eq!(render(&tree), "d20");
}

#[test]
fn delimiter_keeps_number_and_die_apart() {
    let tokens = lex("3;d6");
    let (rest, tree) = coefficient(Input::new(&tokens)).unwrap();
    assert_eq!(tree, num(0, 1, 3));
    assert_eq!(rest.len(), 3);
    assert_eq!(parse(&tokens), Err(grammar_error(Some(sp(1, 2)))));
}

#[test]
fn number_in_front_of_a_name_is_a_coefficient() {
    let tree = parse(&lex("3x")).unwrap();
    assert_eq!(
        tree,
        Node::new(
            sp(0, 2),
            Expr::Coefficient(Node::new(sp(0, 1), Atom::Integer(3)), id(1, 2, "x"))
        )
    );
    assert_eq!(render(&tree), "3x");
}

#[test]
fn one_comparison_is_a_compare() {
    let tree = parse(&lex("a<=b")).unwrap();
    assert_eq!(
        tree,
        Node::new(
            sp(0, 4),
            Expr::Compare(id(0, 1, "a"), Node::new(sp(1, 3), OpEqs::LE), id(3, 4, "b"))
        )
    );
    assert_eq!(render(&tree), "a <= b");
}

#[test]
fn two_comparisons_are_a_bound() {
    let tree = parse(&lex("1 < x < 10")).unwrap();
    assert_eq!(
        tree,
        Node::new(
            sp(0, 10),
            Expr::CompareBound {
                l_val: num(0, 1, 1),
                l_op: Node::new(sp(2, 3), OpEqs::LT),
                val: id(4, 5, "x"),
                r_op: Node::new(sp(6, 7), OpEqs::LT),
                r_val: num(8, 10, 10),
            }
        )
    );
    assert_eq!(render(&tree), "1 < x < 10");
}

#[test]
fn three_comparisons_fail() {
    let tokens = lex("a<b<c<d");
    let (rest, tree) = c_expr(Input::new(&tokens)).unwrap();
    assert!(matches!(*tree.data, Expr::CompareBound { .. }));
    assert_eq!(rest.len(), 2);
    assert_eq!(parse(&tokens), Err(grammar_error(Some(sp(5, 6)))));
}

#[test]
fn every_comparison_operator_is_read() {
    for (text, o) in [
        ("==", OpEqs::EQ),
        ("!=", OpEqs::NE),
        ("<", OpEqs::LT),
        ("<=", OpEqs::LE),
        (">", OpEqs::GT),
        (">=", OpEqs::GE),
    ] {
        let tokens = lex(text);
        let (rest, node) = eqs(Input::new(&tokens)).unwrap();
        assert_eq!(*node.data, o);
        assert_eq!(node.span, sp(0, text.len()));
        assert!(rest.is_empty());
        assert_eq!(render(&parse(&lex(&format!("a {} b", text))).unwrap()), format!("a {} b", text));
    }
    assert!(eqs(Input::new(&lex("+"))).is_err());
}

#[test]
fn operator_classes() {
    let plus = lex("+");
    let star = lex("*");
    let hat = lex("^");
    let dots = lex("..=");
    assert_eq!(*adds(Input::new(&plus)).unwrap().1.data, OpArith::ADD);
    assert_eq!(*adds(Input::new(&lex("-"))).unwrap().1.data, OpArith::SUB);
    assert!(adds(Input::new(&star)).is_err());
    assert_eq!(*muls(Input::new(&star)).unwrap().1.data, OpArith::MUL);
    assert_eq!(*muls(Input::new(&lex("/"))).unwrap().1.data, OpArith::DIV);
    assert_eq!(*muls(Input::new(&lex("%"))).unwrap().1.data, OpArith::MOD);
    assert!(muls(Input::new(&plus)).is_err());
    assert_eq!(*pow(Input::new(&hat)).unwrap().1.data, OpArith::POW);
    assert!(pow(Input::new(&star)).is_err());
    assert_eq!(*ranges(Input::new(&dots)).unwrap().1.data, kismet::ast::OpRange::RANGEI);
    assert_eq!(*ranges(Input::new(&lex(".."))).unwrap().1.data, kismet::ast::OpRange::RANGE);
    assert!(ranges(Input::new(&plus)).is_err());
    assert_eq!(
        adds(Input::new(&[])),
        Err(KError::Error(ONode::new(None, ErrorKind::Grammar)))
    );
}

#[test]
fn six_range_shapes() {
    let shape = |text: &str| *parse(&lex(text)).unwrap().data;
    assert!(matches!(shape("a..b"), Expr::Range(Range::Range { .. })));
    assert!(matches!(shape("a..=b"), Expr::Range(Range::RangeI { .. })));
    assert!(matches!(shape("a.."), Expr::Range(Range::RangeFrom { .. })));
    assert!(matches!(shape("..b"), Expr::Range(Range::RangeTo { .. })));
    assert!(matches!(shape("..=b"), Expr::Range(Range::RangeToI { .. })));
    assert!(matches!(shape(".."), Expr::Range(Range::RangeFull)));
    for text in ["a..b", "a..=b", "a..", "..b", "..=b", ".."] {
        assert_eq!(render(&parse(&lex(text)).unwrap()), text);
    }
    assert_eq!(parse(&lex("1+2..3*4")).unwrap().span, sp(0, 8));
}

#[test]
fn inclusive_range_needs_its_end() {
    assert_eq!(
        r_expr(Input::new(&lex("a..="))),
        Err(KError::Failure(ONode::new(Some(sp(1, 4)), ErrorKind::Grammar)))
    );
    assert_eq!(parse(&lex("..=")), Err(grammar_error(Some(sp(0, 3)))));
}

#[test]
fn nothing_is_no_expression() {
    assert_eq!(parse(&[]), Err(grammar_error(None)));
    assert_eq!(parse(&lex(")")), Err(grammar_error(Some(sp(0, 1)))));
    assert_eq!(
        r_expr(Input::new(&lex("*"))),
        Err(KError::Error(ONode::new(Some(sp(0, 1)), ErrorKind::Grammar)))
    );
}

#[test]
fn boolean_operators() {
    let tree = parse(&lex("not a and b or c")).unwrap();
    assert_eq!(render(&tree), "not a and b or c");
    match *tree.data {
        Expr::Or(lhs, rhs) => {
            assert_eq!(rhs, id(15, 16, "c"));
            match *lhs.data {
                Expr::And(l, r) => {
                    assert_eq!(l, Node::new(sp(0, 5), Expr::Not(id(4, 5, "a"))));
                    assert_eq!(r, id(10, 11, "b"));
                }
                other => panic!("unexpected {:?}", other),
            }
        }
        other => panic!("unexpected {:?}", other),
    }
    assert_eq!(render(&parse(&lex("a or b or c")).unwrap()), "a or b or c");
    match *parse(&lex("a or b or c")).unwrap().data {
        Expr::Or(lhs, _) => assert_eq!(lhs, id(0, 1, "a")),
        other => panic!("unexpected {:?}", other),
    }
}

#[test]
fn assignment_to_a_tuple() {
    let tree = parse(&lex("(a, b) := (1, 2)")).unwrap();
    assert_eq!(render(&tree), "(a, b) := (1, 2)");
    match *tree.data {
        Expr::Assign(target, rhs) => {
            assert_eq!(
                target,
                Node::new(
                    sp(0, 6),
                    Target::TargetTuple(vec![
                        Node::new(sp(1, 2), TargetListItem::Target(Target::Id("a".to_string()))),
                        Node::new(sp(4, 5), TargetListItem::Target(Target::Id("b".to_string()))),
                    ])
                )
            );
            assert_eq!(rhs.span, sp(10, 16));
            assert!(matches!(*rhs.data, Expr::Primary(Primary::Atom(Atom::Tuple(_)))));
        }
        other => panic!("unexpected {:?}", other),
    }
}

#[test]
fn assignment_to_arithmetic_fails_at_the_operator() {
    assert_eq!(parse(&lex("(1+2) := 3")), Err(grammar_error(Some(sp(6, 8)))));
    assert_eq!(
        expr(Input::new(&lex("1 := 3"))),
        Err(KError::Failure(ONode::new(Some(sp(2, 4)), ErrorKind::Grammar)))
    );
    assert_eq!(parse(&lex("f(x) := 3")), Err(grammar_error(Some(sp(5, 7)))));
}

#[test]
fn assignment_to_nested_patterns() {
    for text in [
        "x := 1",
        "(a) := 1",
        "[a, ...b] := c",
        "{a, b: c, ...d} := e",
        "(a, [b, {c}]) := f",
        "() := f",
    ] {
        let tree = parse(&lex(text)).unwrap();
        assert!(matches!(*tree.data, Expr::Assign(_, _)));
        assert_eq!(render(&tree), text);
    }
    match *parse(&lex("{k: v, ...r} := e")).unwrap().data {
        Expr::Assign(target, _) => match *target.data {
            Target::TargetDict(items) => {
                assert_eq!(items.len(), 2);
                assert!(matches!(*items[0].data, TargetDictItem::Pair { .. }));
                assert_eq!(items[0].span, sp(1, 5));
                assert!(matches!(*items[1].data, TargetDictItem::Spread(_)));
                assert_eq!(items[1].span, sp(10, 11));
            }
            other => panic!("unexpected {:?}", other),
        },
        other => panic!("unexpected {:?}", other),
    }
}

#[test]
fn failure_inside_brackets_aborts_the_parse() {
    assert_eq!(parse(&lex("(1 := 2)")), Err(grammar_error(Some(sp(3, 5)))));
    assert_eq!(parse(&lex("f(a, 1 := 2)")), Err(grammar_error(Some(sp(7, 9)))));
}

#[test]
fn atoms() {
    let parsed = |text: &str| *atom(Input::new(&lex(text))).unwrap().1.data;
    assert_eq!(parsed("x"), Atom::Id("x".to_string()));
    assert_eq!(parsed("\"hi\""), Atom::String("hi".to_string()));
    assert_eq!(parsed("true"), Atom::Boolean(true));
    assert_eq!(parsed("false"), Atom::Boolean(false));
    assert_eq!(parsed("null"), Atom::Null);
    assert!(matches!(parsed("(x)"), Atom::Paren(_)));
    assert_eq!(parsed("()"), Atom::Tuple(vec![]));
    assert!(matches!(parsed("(x, y)"), Atom::Tuple(_)));
    assert!(matches!(parsed("[x, ...y]"), Atom::ListDisplay(_)));
    assert!(matches!(parsed("{x, y: 1, ...z}"), Atom::DictDisplay(_)));
    assert!(atom(Input::new(&lex("3"))).is_err());
    assert!(atom(Input::new(&lex("(x"))).is_err());
    assert!(atom(Input::new(&lex("(x,)"))).is_err());
    assert_eq!(
        *numeric_literal(Input::new(&lex("42"))).unwrap().1.data,
        Atom::Integer(42)
    );
    for text in ["x", "\"hi\"", "true", "null", "(x)", "()", "(x, y)", "[x, ...y]", "{x, y: 1, ...z}", "[]", "{}"] {
        let tree = parse(&lex(text)).unwrap();
        assert_eq!(render(&tree), text);
        assert_eq!(tree.span, sp(0, text.len()));
    }
}

#[test]
fn dict_items_keep_their_spans() {
    match *atom(Input::new(&lex("{x, y: 1, ...z}"))).unwrap().1.data {
        Atom::DictDisplay(items) => {
            assert_eq!(*items[0].data, DictItem::Shorthand("x".to_string()));
            assert_eq!(items[0].span, sp(1, 2));
            assert_eq!(
                *items[1].data,
                DictItem::KeyVal { key: Node::new(sp(4, 5), "y".to_string()), val: num(7, 8, 1) }
            );
            assert_eq!(items[1].span, sp(4, 8));
            assert_eq!(*items[2].data, DictItem::Spread(id(13, 14, "z")));
            assert_eq!(items[2].span, sp(10, 14));
        }
        other => panic!("unexpected {:?}", other),
    }
}

#[test]
fn postfix_chain_folds_from_the_left() {
    let tokens = lex("a.b[1, 2](x, ...y).c");
    let (rest, chain) = primary(Input::new(&tokens)).unwrap();
    assert!(rest.is_empty());
    assert_eq!(chain.span, sp(0, 20));
    assert_eq!(render(&parse(&tokens).unwrap()), "a.b[1, 2](x, ...y).c");
    match *chain.data {
        Primary::Attribute(call, name) => {
            assert_eq!(name, Node::new(sp(19, 20), "c".to_string()));
            assert_eq!(call.span, sp(0, 18));
            match *call.data {
                Primary::Call(sub, args) => {
                    assert_eq!(args.span, sp(9, 18));
                    let Args(items) = *args.data;
                    assert_eq!(items.len(), 2);
                    assert!(matches!(*items[1].data, ListItem::Spread(_)));
                    assert_eq!(sub.span, sp(0, 9));
                    match *sub.data {
                        Primary::Subscription(attr, exprs) => {
                            assert_eq!(exprs, vec![num(4, 5, 1), num(7, 8, 2)]);
                            assert_eq!(attr.span, sp(0, 3));
                            assert!(matches!(*attr.data, Primary::Attribute(_, _)));
                        }
                        other => panic!("unexpected {:?}", other),
                    }
                }
                other => panic!("unexpected {:?}", other),
            }
        }
        other => panic!("unexpected {:?}", other),
    }
}

#[test]
fn unfinished_suffix_is_left_unread() {
    let tokens = lex("a.(");
    let (rest, chain) = primary(Input::new(&tokens)).unwrap();
    assert_eq!(rest.len(), 2);
    assert_eq!(chain, Node::new(sp(0, 1), Primary::Atom(Atom::Id("a".to_string()))));
    let (_, node) = expr_node(Input::new(&tokens)).unwrap();
    assert_eq!(node, id(0, 1, "a"));
}

#[test]
fn levels_pass_through() {
    let tokens = lex("x");
    for node in [
        a_expr(Input::new(&tokens)).unwrap().1,
        u_expr(Input::new(&tokens)).unwrap().1,
        die(Input::new(&tokens)).unwrap().1,
        kismet::parser::if_expr(Input::new(&tokens)).unwrap().1,
        kismet::parser::match_expr(Input::new(&tokens)).unwrap().1,
        kismet::parser::for_expr(Input::new(&tokens)).unwrap().1,
        kismet::parser::while_expr(Input::new(&tokens)).unwrap().1,
        kismet::parser::loop_expr(Input::new(&tokens)).unwrap().1,
        kismet::parser::lambda_expr(Input::new(&tokens)).unwrap().1,
        kismet::parser::conditional_expr(Input::new(&tokens)).unwrap().1,
        kismet::parser::assignment_expr(Input::new(&tokens)).unwrap().1,
        kismet::parser::or_test(Input::new(&tokens)).unwrap().1,
        kismet::parser::and_test(Input::new(&tokens)).unwrap().1,
        kismet::parser::not_test(Input::new(&tokens)).unwrap().1,
        kismet::parser::m_expr(Input::new(&tokens)).unwrap().1,
        kismet::parser::p_expr(Input::new(&tokens)).unwrap().1,
    ] {
        assert_eq!(node, id(0, 1, "x"));
    }
}

#[test]
fn token_consumers() {
    let tokens = lex("+ x");
    let i = Input::new(&tokens);
    assert_eq!(i.len(), 2);
    assert_eq!(i.head_span(), Some(sp(0, 1)));
    let (rest, t) = token_tag(i, &Token::ADD).unwrap();
    assert_eq!(*t.data, Token::ADD);
    assert_eq!(rest.len(), 1);
    assert_eq!(
        token_tag(i, &Token::SUB),
        Err(KError::Error(ONode::new(Some(sp(0, 1)), ErrorKind::Grammar)))
    );
    assert_eq!(
        token_tag(rest, &Token::Id("x".to_string())).unwrap().1.span,
        sp(2, 3)
    );
    assert!(token_tag(rest, &Token::Id("y".to_string())).is_err());
    let (after, seen) = token_if(rest, |t: &Node<Token>| matches!(*t.data, Token::Id(_))).unwrap();
    assert_eq!(seen.span, sp(2, 3));
    assert!(after.is_empty());
    assert!(token_if(i, |t: &Node<Token>| matches!(*t.data, Token::Id(_))).is_err());
    let (_, n) = token_action(rest, |t: &Node<Token>| match &*t.data {
        Token::Id(x) => Some(x.len()),
        _ => None,
    })
    .unwrap();
    assert_eq!(n, 1);
    assert!(token_action(i, |_: &Node<Token>| None::<u8>).is_err());
    assert_eq!(
        token_tag(after, &Token::ADD),
        Err(KError::Error(ONode::new(None, ErrorKind::Grammar)))
    );
}

#[test]
fn list_of_lines_may_be_empty() {
    let none: Vec<Node<Token>> = vec![];
    let (rest, list) = expr_list0(Input::new(&none)).unwrap();
    assert!(rest.is_empty());
    assert_eq!(list, None);

    let tokens = lex(";1+2;;x;");
    let (rest, list) = expr_list0(Input::new(&tokens)).unwrap();
    assert!(rest.is_empty());
    let list = list.unwrap();
    assert_eq!(list.span, sp(1, 7));
    assert_eq!(
        *list.data,
        vec![op(num(1, 2, 1), 2, OpArith::ADD, num(3, 4, 2)), id(6, 7, "x")]
    );

    let only = lex(";;)");
    let (rest, list) = expr_list0(Input::new(&only)).unwrap();
    assert_eq!(rest.len(), 1);
    assert_eq!(list, Some(Node::new(sp(0, 2), vec![])));

    let end = lex(";;");
    let (_, list) = expr_list0(Input::new(&end)).unwrap();
    assert_eq!(list, Some(Node::new(sp(0, 1), vec![])));
}

#[test]
fn list_of_lines_with_a_head() {
    let tokens = lex(";a;b;;c;");
    let (rest, list) = expr_list1(Input::new(&tokens)).unwrap();
    assert!(rest.is_empty());
    assert_eq!(list.span, sp(0, 8));
    assert_eq!(*list.data, vec![id(1, 2, "a"), id(3, 4, "b"), id(6, 7, "c")]);

    let single = lex("a;");
    let (_, list) = expr_list1(Input::new(&single)).unwrap();
    assert_eq!(list, Node::new(sp(0, 1), vec![id(0, 1, "a")]));

    assert_eq!(
        expr_list1(Input::new(&lex("a"))),
        Err(KError::Error(ONode::new(None, ErrorKind::Grammar)))
    );
    assert!(expr_list1(Input::new(&lex(";"))).is_err());
}

fn check_nested(n: &Node<Expr>) {
    let inside = |child: Span| {
        assert!(n.span.start <= child.start && child.end <= n.span.end, "{:?} in {:?}", child, n.span)
    };
    match &*n.data {
        Expr::Arith(l, o, r) => {
            inside(l.span);
            inside(o.span);
            inside(r.span);
            check_nested(l);
            check_nested(r);
        }
        Expr::Compare(l, o, r) => {
            inside(l.span);
            inside(o.span);
            inside(r.span);
            check_nested(l);
            check_nested(r);
        }
        Expr::CompareBound { l_val, l_op, val, r_op, r_val } => {
            for s in [l_val.span, l_op.span, val.span, r_op.span, r_val.span] {
                inside(s);
            }
            check_nested(l_val);
            check_nested(val);
            check_nested(r_val);
        }
        Expr::And(l, r) | Expr::Or(l, r) => {
            inside(l.span);
            inside(r.span);
            check_nested(l);
            check_nested(r);
        }
        Expr::Not(v) => {
            inside(v.span);
            check_nested(v);
        }
        Expr::Unary(o, v) => {
            inside(o.span);
            inside(v.span);
            check_nested(v);
        }
        Expr::Coefficient(a, r) => {
            inside(a.span);
            inside(r.span);
            check_nested(r);
        }
        Expr::Die(a) => inside(a.span),
        Expr::Assign(t, r) => {
            inside(t.span);
            inside(r.span);
            check_nested(r);
        }
        Expr::Range(Range::Range { start, end }) | Expr::Range(Range::RangeI { start, end }) => {
            inside(start.span);
            inside(end.span);
        }
        _ => {}
    }
}

#[test]
fn spans_of_children_lie_inside() {
    for text in [
        "2^5+3*4^6",
        "1 < x < 10",
        "not a and -b or 3d6 == c",
        "(a, b) := (1, 2)",
        "a+1..b*2",
        "f(x)[1].y + 2--3",
    ] {
        let tokens = lex(text);
        let tree = parse(&tokens).unwrap();
        assert_eq!(tree.span, sp(0, text.len()));
        check_nested(&tree);
    }
}

#[test]
fn canonical_text_parses_to_the_same_tree() {
    for text in [
        "2 + 3",
        "2 + 3 + 4",
        "2 + 3*4",
        "2^5 + 3*4^6",
        "+3",
        "2 - -3",
        "3d6",
        "1 < x < 10",
        "(a, b) := (1, 2)",
        "not a and b or c",
        "a..=b",
        "f(x, ...y)[1, 2].z",
        "{a, b: 1 + 2, ...c}",
        "[1, (2), \"three\", null, true]",
    ] {
        let tree = parse(&lex(text)).unwrap();
        assert_eq!(render(&tree), text);
        let spaced: String = text.chars().map(|c| if c == ' ' { "  ".to_string() } else { c.to_string() }).collect();
        let moved = parse(&lex(&format!("   {}", spaced))).unwrap();
        assert_eq!(render(&moved), text);
        assert_ne!(moved.span, tree.span);
    }
}

#[test]
fn order_of_tokens_is_checked() {
    assert!(kismet::parser::is_ordered(&lex("1 + 2 * (3)")));
    assert!(kismet::parser::is_ordered(&[]));
    let touching = vec![
        Node::new(sp(0, 2), Token::Integer(10)),
        Node::new(sp(2, 2), Token::DELIM),
        Node::new(sp(2, 3), Token::ADD),
    ];
    assert!(kismet::parser::is_ordered(&touching));
    let overlapping = vec![
        Node::new(sp(0, 2), Token::Integer(10)),
        Node::new(sp(1, 3), Token::ADD),
    ];
    assert!(!kismet::parser::is_ordered(&overlapping));
    let backwards = vec![Node::new(sp(3, 2), Token::ADD)];
    assert!(!kismet::parser::is_ordered(&backwards));
    let behind = vec![
        Node::new(sp(0, 1), Token::Integer(1)),
        Node::new(sp(4, 5), Token::ADD),
        Node::new(sp(2, 3), Token::Integer(2)),
    ];
    assert!(!kismet::parser::is_ordered(&behind));
}

#[test]
fn unordered_spans_still_parse_to_the_same_shape() {
    let tokens = vec![
        Node::new(sp(7, 9), Token::Integer(2)),
        Node::new(sp(0, 1), Token::ADD),
        Node::new(sp(3, 4), Token::Integer(3)),
    ];
    let tree = parse(&tokens).unwrap();
    assert_eq!(tree.span, sp(3, 9));
    assert_eq!(render(&tree), "2 + 3");
}

#[test]
fn clone_is_a_deep_copy() {
    for text in ["(a, b) := f(x)[1].y + 3d6", "{k: [q, ...r], s} := not a and b < c < d or ..=e"] {
        let tree = parse(&lex(text)).unwrap();
        let copy = Node::new(tree.span, (*tree.data).clone());
        assert_eq!(copy, tree);
        assert_eq!(render(&copy), render(&tree));
    }
}

fn left_operand(n: &Node<Expr>) -> Option<(&Node<Expr>, OpArith)> {
    match &*n.data {
        Expr::Arith(l, o, _) => Some((l, *o.data)),
        _ => None,
    }
}

#[test]
fn left_operands_are_never_of_the_same_class() {
    for text in ["1+2-3+4", "1*2/3%4", "1^2^3^4", "1+2*3-4/5", "1*2^3*4"] {
        let tree = parse(&lex(text)).unwrap();
        let mut node = &tree;
        loop {
            let (left, op) = match left_operand(node) {
                Some(x) => x,
                None => break,
            };
            if let Some((_, inner)) = left_operand(left) {
                let class = |o: OpArith| match o {
                    OpArith::ADD | OpArith::SUB => 0,
                    OpArith::MUL | OpArith::DIV | OpArith::MOD => 1,
                    OpArith::POW => 2,
                };
                assert!(class(inner) > class(op), "{} in {}", text, render(node));
            }
            match &*node.data {
                Expr::Arith(_, _, r) => node = r,
                _ => break,
            }
        }
    }
}

fn name_target(start: usize, end: usize, name: &str) -> Node<Target> {
    Node::new(sp(start, end), Target::Id(name.to_string()))
}

#[test]
fn assignment_groups_to_the_right() {
    let tokens = vec![
        Node::new(sp(0, 1), Token::Id("a".to_string())),
        Node::new(sp(2, 4), Token::ASSIGNE),
        Node::new(sp(5, 6), Token::Id("b".to_string())),
        Node::new(sp(7, 9), Token::ASSIGNE),
        Node::new(sp(10, 11), Token::Id("c".to_string())),
    ];
    let (rest, tree) = expr(Input::new(&tokens)).unwrap();
    assert!(rest.is_empty());
    let inner = Node::new(sp(5, 11), Expr::Assign(name_target(5, 6, "b"), id(10, 11, "c")));
    let outer = Node::new(sp(0, 11), Expr::Assign(name_target(0, 1, "a"), inner));
    assert_eq!(tree, outer);
    assert_eq!(parse(&tokens), Ok(outer));
    assert_eq!(render(&tree), "a := b := c");
    assert_eq!(parse(&lex("a := b := c")).unwrap(), tree);
    assert_eq!(render(&parse(&lex("(a, b) := [c] := {d} := 1 + 2")).unwrap()), "(a, b) := [c] := {d} := 1 + 2");
}

#[test]
fn chain_fails_at_the_first_side_that_is_no_pattern() {
    assert_eq!(parse(&lex("a := 1 := c")), Err(grammar_error(Some(sp(7, 9)))));
    assert_eq!(parse(&lex("1 := b := c")), Err(grammar_error(Some(sp(2, 4)))));
    assert_eq!(
        expr(Input::new(&lex("a := b :="))),
        Err(KError::Error(ONode::new(None, ErrorKind::Grammar)))
    );
}

fn without_layout(text: &str) -> String {
    text.chars().filter(|c| *c != ' ' && *c != ',').collect()
}

#[test]
fn canonical_text_spells_the_tokens() {
    for text in [
        "2^5+3*4^6",
        "a := b := c",
        "(a, b) := (1, 2)",
        "not a and b or c",
        "1 < x <= 10",
        "a..=b",
        "3d6 - -d20",
        "f(x, ...y)[1, 2].z",
        "{a, b: 1 + 2, ...c}",
        "[1, (2), \"three\", null, true]",
    ] {
        let tokens = lex(text);
        let tree = parse(&tokens).unwrap();
        let mut spelled = String::new();
        for t in tokens.iter() {
            spelled.push_str(&kismet::ast::spelling(&t.data));
        }
        assert_eq!(without_layout(&render(&tree)), without_layout(&spelled));
        assert_eq!(without_layout(&render(&tree)), without_layout(text));
    }
}
