use kismet::ast::{
    render, render_atom, render_expr, render_integer, render_primary, render_target, spelling,
    Args,
    ArgsDef, Atom, Branch, DictItem, Expr, ExprBlock, ExprBlockEnclosed, ExprBlockTop, ListItem,
    OpArith, OpEqs, OpRange, Primary, Range, Target, TargetDictItem, TargetList, TargetListItem,
};
use kismet::token::Token;
use kismet::types::{Node, Render, Span};

fn at<T>(data: T) -> Node<T> {
    Node::new(Span { start: 0, end: 0 }, data)
}

fn num(n: i32) -> Node<Expr> {
    at(Expr::Primary(Primary::Atom(Atom::Integer(n))))
}

fn id(name: &str) -> Node<Expr> {
    at(Expr::Primary(Primary::Atom(Atom::Id(name.to_string()))))
}

fn tid(name: &str) -> Node<Target> {
    at(Target::Id(name.to_string()))
}

#[test]
fn integers_in_decimal() {
    assert_eq!(render_integer(0), "0");
    assert_eq!(render_integer(7), "7");
    assert_eq!(render_integer(10), "10");
    assert_eq!(render_integer(1234567890), "1234567890");
    assert_eq!(render_integer(-1), "-1");
    assert_eq!(render_integer(-305), "-305");
    assert_eq!(render_integer(i32::MAX), "2147483647");
    assert_eq!(render_integer(i32::MIN), "-2147483648");
}

#[test]
fn operator_signs_and_spacing() {
    let ops = [
        (OpArith::ADD, "+", " "),
        (OpArith::SUB, "-", " "),
        (OpArith::MUL, "*", ""),
        (OpArith::DIV, "/", " "),
        (OpArith::MOD, "%", " "),
        (OpArith::POW, "^", ""),
    ];
    for (op, sign, space) in ops {
        assert_eq!(op.symbol(), sign);
        assert_eq!(op.space(), space);
        assert_eq!(op.render(), sign);
        let text = render(&at(Expr::Arith(num(1), at(op), num(2))));
        assert_eq!(text, format!("1{}{}{}2", space, sign, space));
    }
    assert_eq!(OpEqs::NE.symbol(), "!=");
    assert_eq!(OpEqs::GE.render(), ">=");
    assert_eq!(OpRange::RANGE.symbol(), "..");
    assert_eq!(OpRange::RANGEI.render(), "..=");
}

#[test]
fn unary_sign_is_tight() {
    assert_eq!(render(&at(Expr::Unary(at(OpArith::ADD), num(3)))), "+3");
    assert_eq!(
        render(&at(Expr::Arith(
            num(2),
            at(OpArith::SUB),
            at(Expr::Unary(at(OpArith::SUB), num(3)))
        ))),
        "2 - -3"
    );
}

#[test]
fn die_of_a_name_is_in_parentheses() {
    assert_eq!(render(&at(Expr::Die(at(Atom::Id("x".to_string()))))), "d(x)");
    assert_eq!(render(&at(Expr::Die(at(Atom::Integer(6))))), "d6");
    assert_eq!(
        render(&at(Expr::Coefficient(
            at(Atom::Integer(3)),
            at(Expr::Die(at(Atom::Integer(6))))
        ))),
        "3d6"
    );
}

#[test]
fn boolean_and_comparison_forms() {
    assert_eq!(render(&at(Expr::And(id("a"), id("b")))), "a and b");
    assert_eq!(render(&at(Expr::Or(id("a"), id("b")))), "a or b");
    assert_eq!(render(&at(Expr::Not(id("a")))), "not a");
    assert_eq!(render(&at(Expr::Compare(id("a"), at(OpEqs::EQ), num(1)))), "a == 1");
    assert_eq!(
        render(&at(Expr::CompareBound {
            l_val: num(1),
            l_op: at(OpEqs::LT),
            val: id("x"),
            r_op: at(OpEqs::LE),
            r_val: num(10),
        })),
        "1 < x <= 10"
    );
}

#[test]
fn range_texts() {
    let range = |r: Range| render_expr(&Expr::Range(r));
    assert_eq!(range(Range::Range { start: num(1), end: num(2) }), "1..2");
    assert_eq!(range(Range::RangeI { start: num(1), end: num(2) }), "1..=2");
    assert_eq!(range(Range::RangeFrom { start: num(1) }), "1..");
    assert_eq!(range(Range::RangeTo { end: num(2) }), "..2");
    assert_eq!(range(Range::RangeToI { end: num(2) }), "..=2");
    assert_eq!(range(Range::RangeFull), "..");
    assert_eq!(Range::RangeFull.render(), "..");
}

#[test]
fn atom_texts() {
    assert_eq!(render_atom(&Atom::Id("x".to_string())), "x");
    assert_eq!(render_atom(&Atom::Integer(-4)), "-4");
    assert_eq!(render_atom(&Atom::String("hi".to_string())), "\"hi\"");
    assert_eq!(render_atom(&Atom::Boolean(true)), "true");
    assert_eq!(render_atom(&Atom::Boolean(false)), "false");
    assert_eq!(render_atom(&Atom::Null), "null");
    let a = || at(ListItem::Expr(*id("a").data));
    let b = || at(ListItem::Spread(id("b")));
    assert_eq!(render_atom(&Atom::Paren(a())), "(a)");
    assert_eq!(render_atom(&Atom::Tuple(vec![])), "()");
    assert_eq!(render_atom(&Atom::Tuple(vec![a()])), "(a,)");
    assert_eq!(render_atom(&Atom::Tuple(vec![a(), b()])), "(a, ...b)");
    assert_eq!(render_atom(&Atom::ListDisplay(vec![a(), b()])), "[a, ...b]");
    assert_eq!(render_atom(&Atom::ListDisplay(vec![])), "[]");
    assert_eq!(
        render_atom(&Atom::DictDisplay(vec![
            at(DictItem::Shorthand("k".to_string())),
            at(DictItem::KeyVal { key: at("n".to_string()), val: num(1) }),
            at(DictItem::Spread(id("r"))),
        ])),
        "{k, n: 1, ...r}"
    );
    assert_eq!(Atom::Null.render(), "null");
    assert_eq!(ListItem::Spread(id("b")).render(), "...b");
    assert_eq!(DictItem::Shorthand("k".to_string()).render(), "k");
}

#[test]
fn postfix_chains() {
    let base = || at(Primary::Atom(Atom::Id("f".to_string())));
    assert_eq!(
        render_primary(&Primary::Attribute(base(), at("x".to_string()))),
        "f.x"
    );
    assert_eq!(
        render_primary(&Primary::Subscription(base(), vec![num(1), num(2)])),
        "f[1, 2]"
    );
    assert_eq!(
        render_primary(&Primary::Call(
            base(),
            at(Args(vec![at(ListItem::Expr(*num(1).data)), at(ListItem::Spread(id("r")))]))
        )),
        "f(1, ...r)"
    );
    assert_eq!(render_primary(&Primary::Call(base(), at(Args(vec![])))), "f()");
    assert_eq!(Args(vec![at(ListItem::Expr(*num(1).data))]).render(), "1");
    assert_eq!(Primary::Atom(Atom::Null).render(), "null");
}

#[test]
fn patterns() {
    let item = |name: &str| at(TargetListItem::Target(Target::Id(name.to_string())));
    assert_eq!(render_target(&Target::Id("x".to_string())), "x");
    assert_eq!(render_target(&Target::TargetTuple(vec![item("a"), item("b")])), "(a, b)");
    assert_eq!(render_target(&Target::TargetTuple(vec![item("a")])), "(a)");
    assert_eq!(
        render_target(&Target::TargetList(vec![item("a"), at(TargetListItem::Spread(tid("r")))])),
        "[a, ...r]"
    );
    assert_eq!(
        render_target(&Target::TargetDict(vec![
            at(TargetDictItem::Shorthand("k".to_string())),
            at(TargetDictItem::Pair { key: at("n".to_string()), val: tid("v") }),
            at(TargetDictItem::Spread(tid("r"))),
        ])),
        "{k, n: v, ...r}"
    );
    assert_eq!(Target::Id("x".to_string()).render(), "x");
    assert_eq!(TargetListItem::Spread(tid("r")).render(), "...r");
    assert_eq!(
        TargetDictItem::Pair { key: at("n".to_string()), val: tid("v") }.render(),
        "n: v"
    );
    assert_eq!(
        render(&at(Expr::Assign(at(Target::TargetTuple(vec![item("a"), item("b")])), num(1)))),
        "(a, b) := 1"
    );
}

#[test]
fn pattern_lists_keep_a_comma_behind_a_single_pattern() {
    assert_eq!(TargetList::Target(Target::Id("a".to_string())).render(), "a");
    assert_eq!(TargetList::List(vec![tid("a")]).render(), "a,");
    assert_eq!(TargetList::List(vec![tid("a"), tid("b")]).render(), "a, b");
    assert_eq!(TargetList::List(vec![]).render(), "");
}

#[test]
fn blocks() {
    assert_eq!(ExprBlock(vec![]).render(), "");
    assert_eq!(ExprBlock(vec![num(1)]).render(), "1");
    assert_eq!(ExprBlock(vec![num(1), num(2)]).render(), "{\n1\n2\n}");
    assert_eq!(ExprBlockTop(vec![num(1), num(2)]).render(), "1\n2");
    assert_eq!(ExprBlockTop(vec![]).render(), "");
    assert_eq!(ExprBlockEnclosed(vec![num(1)]).render(), "{\n1\n}");
    assert_eq!(ExprBlockEnclosed(vec![]).render(), "{\n\n}");
}

#[test]
fn functions_and_branches() {
    let block = || at(ExprBlockEnclosed(vec![id("x")]));
    assert_eq!(
        render(&at(Expr::Function { args: at(ArgsDef(vec![tid("a"), tid("b")])), block: block() })),
        "(a, b) => {\nx\n}"
    );
    assert_eq!(ArgsDef(vec![tid("a")]).render(), "a");
    let branch = |b: Branch| render_expr(&Expr::Branch(b));
    assert_eq!(
        branch(Branch::If { val: id("c"), block: block(), else_block: None }),
        "if c {\nx\n}"
    );
    assert_eq!(
        branch(Branch::If { val: id("c"), block: block(), else_block: Some(block()) }),
        "if c {\nx\n} else {\nx\n}"
    );
    assert_eq!(branch(Branch::Match { val: id("c"), block: block() }), "match c {\nx\n}");
    assert_eq!(
        branch(Branch::For { target: tid("i"), val: id("c"), block: block() }),
        "for i in c {\nx\n}"
    );
    assert_eq!(branch(Branch::While { val: id("c"), block: block() }), "while c {\nx\n}");
    assert_eq!(branch(Branch::Loop { block: block() }), "loop {\nx\n}");
    assert_eq!(Branch::Loop { block: block() }.render(), "loop {\nx\n}");
}

#[test]
fn node_renders_its_value() {
    assert_eq!(num(5).render(), "5");
    assert_eq!(at("name".to_string()).render(), "name");
    assert_eq!(Node::join(&vec![num(1), num(2)], " | "), "1 | 2");
}

#[test]
fn tokens_are_spelled_as_in_source() {
    let cases = [
        (Token::DELIM, "\n"),
        (Token::COMMA, ","),
        (Token::COLON, ":"),
        (Token::DOT, "."),
        (Token::SPREAD, "..."),
        (Token::ASSIGNE, ":="),
        (Token::OR, "or"),
        (Token::AND, "and"),
        (Token::NOT, "not"),
        (Token::EQ, "=="),
        (Token::NE, "!="),
        (Token::LT, "<"),
        (Token::LE, "<="),
        (Token::GT, ">"),
        (Token::GE, ">="),
        (Token::RANGE, ".."),
        (Token::RANGEI, "..="),
        (Token::ADD, "+"),
        (Token::SUB, "-"),
        (Token::MUL, "*"),
        (Token::DIV, "/"),
        (Token::MOD, "%"),
        (Token::POW, "^"),
        (Token::DIE, "d"),
        (Token::LPAREN, "("),
        (Token::RPAREN, ")"),
        (Token::LBRACKET, "["),
        (Token::RBRACKET, "]"),
        (Token::LBRACE, "{"),
        (Token::RBRACE, "}"),
        (Token::NULL, "null"),
        (Token::IF, "if"),
        (Token::ELSE, "else"),
        (Token::MATCH, "match"),
        (Token::FOR, "for"),
        (Token::IN, "in"),
        (Token::WHILE, "while"),
        (Token::LOOP, "loop"),
        (Token::ARROW, "=>"),
        (Token::Boolean(true), "true"),
        (Token::Boolean(false), "false"),
        (Token::Integer(-12), "-12"),
        (Token::Id("x1".to_string()), "x1"),
        (Token::String("hi".to_string()), "\"hi\""),
    ];
    for (token, text) in cases {
        assert_eq!(spelling(&token), text);
    }
}
