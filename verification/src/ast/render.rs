use super::atom::{Atom, DictItem, ListItem};
use super::expr::{ArgsDef, Branch, Expr, ExprBlock, ExprBlockEnclosed, ExprBlockTop, Range};
use super::model::{
    dict_item_nodes_view, expr_nodes_view, list_item_nodes_view, target_dict_item_nodes_view,
    target_list_item_nodes_view, target_nodes_view,
};
use super::op::{OpArith, OpEqs, OpRange};
use super::primary::{Args, Primary};
use super::target::{Target, TargetDictItem, TargetList, TargetListItem};
use super::text::{
    arith_space, arith_symbol, atom_text, block_text, branch_text, dict_item_text,
    dict_item_texts, digit_text, digits_text, enclosed_text, eqs_symbol, expr_text, expr_texts,
    integer_text, list_item_text, list_item_texts, primary_text, range_symbol, range_text,
    target_dict_item_text, target_dict_item_texts, target_list_item_text,
    target_list_item_texts, target_list_text, target_text, target_texts, top_text,
};
use super::spelling::{same_text, spelled, token_text};
use super::tokens::tokens_of;
use crate::laws::trees::law_text_spells_tokens;
use crate::token::Token;
use crate::types::{joined, lemma_joined_step, Node, Render};
use vstd::prelude::*;
use vstd::string::StringExecFns;

verus! {

fn digit_str(d: u64) -> (s: &'static str)
    requires
        d < 10,
    ensures
        s@ == digit_text(d as int),
{
    if d == 0 {
        "0"
    } else if d == 1 {
        "1"
    } else if d == 2 {
        "2"
    } else if d == 3 {
        "3"
    } else if d == 4 {
        "4"
    } else if d == 5 {
        "5"
    } else if d == 6 {
        "6"
    } else if d == 7 {
        "7"
    } else if d == 8 {
        "8"
    } else {
        "9"
    }
}

fn render_digits(n: u64) -> (s: String)
    ensures
        s@ == digits_text(n as nat),
    decreases n,
{
    if n < 10 {
        String::from_str(digit_str(n))
    } else {
        render_digits(n / 10).concat(digit_str(n % 10))
    }
}

/// An integer in decimal.
pub fn render_integer(n: i32) -> (s: String)
    ensures
        s@ == integer_text(n as int),
{
    if n < 0 {
        let m: u64 = (-(n as i64)) as u64;
        String::from_str("-").concat(render_digits(m).as_str())
    } else {
        render_digits(n as u64)
    }
}

impl OpArith {
    /// The operator's sign.
    pub fn symbol(&self) -> (s: &'static str)
        ensures
            s@ == arith_symbol(*self),
    {
        match self {
            OpArith::ADD => "+",
            OpArith::SUB => "-",
            OpArith::MUL => "*",
            OpArith::DIV => "/",
            OpArith::MOD => "%",
            OpArith::POW => "^",
        }
    }

    /// What is written on both sides of the operator between two operands.
    pub fn space(&self) -> (s: &'static str)
        ensures
            s@ == arith_space(*self),
    {
        match self {
            OpArith::MUL => "",
            OpArith::POW => "",
            _ => " ",
        }
    }
}

impl OpEqs {
    /// The operator's sign.
    pub fn symbol(&self) -> (s: &'static str)
        ensures
            s@ == eqs_symbol(*self),
    {
        match self {
            OpEqs::EQ => "==",
            OpEqs::NE => "!=",
            OpEqs::LT => "<",
            OpEqs::LE => "<=",
            OpEqs::GT => ">",
            OpEqs::GE => ">=",
        }
    }
}

impl OpRange {
    /// The operator's sign.
    pub fn symbol(&self) -> (s: &'static str)
        ensures
            s@ == range_symbol(*self),
    {
        match self {
            OpRange::RANGE => "..",
            OpRange::RANGEI => "..=",
        }
    }
}

/// The canonical text of a pattern.
pub fn render_target(t: &Target) -> (s: String)
    ensures
        s@ == target_text(t@),
    decreases t,
{
    match t {
        Target::Id(x) => x.clone(),
        Target::TargetTuple(items) => String::from_str("(").concat(
            render_target_list_items(items, ", ").as_str(),
        ).concat(")"),
        Target::TargetList(items) => String::from_str("[").concat(
            render_target_list_items(items, ", ").as_str(),
        ).concat("]"),
        Target::TargetDict(items) => String::from_str("{").concat(
            render_target_dict_items(items, ", ").as_str(),
        ).concat("}"),
    }
}

fn render_target_list_item(item: &TargetListItem) -> (s: String)
    ensures
        s@ == target_list_item_text(item@),
    decreases item,
{
    match item {
        TargetListItem::Target(t) => render_target(t),
        TargetListItem::Spread(t) => String::from_str("...").concat(
            render_target(&t.data).as_str(),
        ),
    }
}

fn render_target_dict_item(item: &TargetDictItem) -> (s: String)
    ensures
        s@ == target_dict_item_text(item@),
    decreases item,
{
    match item {
        TargetDictItem::Shorthand(k) => k.clone(),
        TargetDictItem::Spread(t) => String::from_str("...").concat(
            render_target(&t.data).as_str(),
        ),
        TargetDictItem::Pair { key, val } => (*key.data).clone().concat(": ").concat(
            render_target(&val.data).as_str(),
        ),
    }
}

fn render_targets(items: &Vec<Node<Target>>, sep: &str) -> (s: String)
    ensures
        s@ == joined(target_texts(target_nodes_view(items@)), sep@),
    decreases items,
{
    let ghost texts = target_texts(target_nodes_view(items@));
    let mut out = String::new();
    let mut i: usize = 0;
    proof {
        assert(texts.take(0) =~= Seq::<Seq<char>>::empty());
    }
    while i < items.len()
        invariant
            i <= items@.len(),
            texts == target_texts(target_nodes_view(items@)),
            texts.len() == items@.len(),
            out@ == joined(texts.take(i as int), sep@),
        decreases items@.len() - i,
    {
        let text = render_target(&items[i].data);
        proof {
            lemma_joined_step(texts, i as int, sep@);
            assert(texts[i as int] == text@);
            if i == 0 {
                assert(out@ + text@ =~= text@);
            }
        }
        if i > 0 {
            out.append(sep);
        }
        out.append(text.as_str());
        i += 1;
    }
    proof {
        assert(texts.take(i as int) =~= texts);
    }
    out
}

fn render_target_list_items(items: &Vec<Node<TargetListItem>>, sep: &str) -> (s: String)
    ensures
        s@ == joined(target_list_item_texts(target_list_item_nodes_view(items@)), sep@),
    decreases items,
{
    let ghost texts = target_list_item_texts(target_list_item_nodes_view(items@));
    let mut out = String::new();
    let mut i: usize = 0;
    proof {
        assert(texts.take(0) =~= Seq::<Seq<char>>::empty());
    }
    while i < items.len()
        invariant
            i <= items@.len(),
            texts == target_list_item_texts(target_list_item_nodes_view(items@)),
            texts.len() == items@.len(),
            out@ == joined(texts.take(i as int), sep@),
        decreases items@.len() - i,
    {
        let text = render_target_list_item(&items[i].data);
        proof {
            lemma_joined_step(texts, i as int, sep@);
            assert(texts[i as int] == text@);
            if i == 0 {
                assert(out@ + text@ =~= text@);
            }
        }
        if i > 0 {
            out.append(sep);
        }
        out.append(text.as_str());
        i += 1;
    }
    proof {
        assert(texts.take(i as int) =~= texts);
    }
    out
}

fn render_target_dict_items(items: &Vec<Node<TargetDictItem>>, sep: &str) -> (s: String)
    ensures
        s@ == joined(target_dict_item_texts(target_dict_item_nodes_view(items@)), sep@),
    decreases items,
{
    let ghost texts = target_dict_item_texts(target_dict_item_nodes_view(items@));
    let mut out = String::new();
    let mut i: usize = 0;
    proof {
        assert(texts.take(0) =~= Seq::<Seq<char>>::empty());
    }
    while i < items.len()
        invariant
            i <= items@.len(),
            texts == target_dict_item_texts(target_dict_item_nodes_view(items@)),
            texts.len() == items@.len(),
            out@ == joined(texts.take(i as int), sep@),
        decreases items@.len() - i,
    {
        let text = render_target_dict_item(&items[i].data);
        proof {
            lemma_joined_step(texts, i as int, sep@);
            assert(texts[i as int] == text@);
            if i == 0 {
                assert(out@ + text@ =~= text@);
            }
        }
        if i > 0 {
            out.append(sep);
        }
        out.append(text.as_str());
        i += 1;
    }
    proof {
        assert(texts.take(i as int) =~= texts);
    }
    out
}

/// The canonical text of an expression.
pub fn render_expr(e: &Expr) -> (s: String)
    ensures
        s@ == expr_text(e@),
    decreases e,
{
    match e {
        Expr::Assign(lhs, rhs) => render_target(&lhs.data).concat(" := ").concat(
            render_expr(&rhs.data).as_str(),
        ),
        Expr::Branch(b) => render_branch(b),
        Expr::Function { args, block } => String::from_str("(").concat(
            render_targets(&args.data.0, ", ").as_str(),
        ).concat(") => ").concat(render_enclosed(&block.data.0).as_str()),
        Expr::And(lhs, rhs) => render_expr(&lhs.data).concat(" and ").concat(
            render_expr(&rhs.data).as_str(),
        ),
        Expr::Or(lhs, rhs) => render_expr(&lhs.data).concat(" or ").concat(
            render_expr(&rhs.data).as_str(),
        ),
        Expr::Not(val) => String::from_str("not ").concat(render_expr(&val.data).as_str()),
        Expr::CompareBound { l_val, l_op, val, r_op, r_val } => render_expr(&l_val.data).concat(
            " ",
        ).concat(l_op.data.symbol()).concat(" ").concat(render_expr(&val.data).as_str()).concat(
            " ",
        ).concat(r_op.data.symbol()).concat(" ").concat(render_expr(&r_val.data).as_str()),
        Expr::Compare(lhs, op, rhs) => render_expr(&lhs.data).concat(" ").concat(
            op.data.symbol(),
        ).concat(" ").concat(render_expr(&rhs.data).as_str()),
        Expr::Range(r) => render_range(r),
        Expr::Arith(lhs, op, rhs) => render_expr(&lhs.data).concat(op.data.space()).concat(
            op.data.symbol(),
        ).concat(op.data.space()).concat(render_expr(&rhs.data).as_str()),
        Expr::Unary(op, val) => String::from_str(op.data.symbol()).concat(
            render_expr(&val.data).as_str(),
        ),
        Expr::Coefficient(lhs, rhs) => render_atom(&lhs.data).concat(
            render_expr(&rhs.data).as_str(),
        ),
        Expr::Die(val) => match &*val.data {
            Atom::Id(_) => String::from_str("d(").concat(render_atom(&val.data).as_str()).concat(
                ")",
            ),
            _ => String::from_str("d").concat(render_atom(&val.data).as_str()),
        },
        Expr::Primary(p) => render_primary(p),
    }
}

fn render_enclosed(items: &Vec<Node<Expr>>) -> (s: String)
    ensures
        s@ == enclosed_text(expr_nodes_view(items@)),
    decreases items, 1nat,
{
    String::from_str("{\n").concat(render_exprs(items, "\n").as_str()).concat("\n}")
}

fn render_range(r: &Range) -> (s: String)
    ensures
        s@ == range_text(r@),
    decreases r,
{
    match r {
        Range::Range { start, end } => render_expr(&start.data).concat("..").concat(
            render_expr(&end.data).as_str(),
        ),
        Range::RangeI { start, end } => render_expr(&start.data).concat("..=").concat(
            render_expr(&end.data).as_str(),
        ),
        Range::RangeFrom { start } => render_expr(&start.data).concat(".."),
        Range::RangeTo { end } => String::from_str("..").concat(render_expr(&end.data).as_str()),
        Range::RangeToI { end } => String::from_str("..=").concat(
            render_expr(&end.data).as_str(),
        ),
        Range::RangeFull => String::from_str(".."),
    }
}

fn render_branch(b: &Branch) -> (s: String)
    ensures
        s@ == branch_text(b@),
    decreases b,
{
    match b {
        Branch::If { val, block, else_block } => {
            let tail = match else_block {
                Some(e) => String::from_str(" else ").concat(
                    render_enclosed(&e.data.0).as_str(),
                ),
                None => String::from_str(""),
            };
            String::from_str("if ").concat(render_expr(&val.data).as_str()).concat(" ").concat(
                render_enclosed(&block.data.0).as_str(),
            ).concat(tail.as_str())
        },
        Branch::Match { val, block } => String::from_str("match ").concat(
            render_expr(&val.data).as_str(),
        ).concat(" ").concat(render_enclosed(&block.data.0).as_str()),
        Branch::For { target, val, block } => String::from_str("for ").concat(
            render_target(&target.data).as_str(),
        ).concat(" in ").concat(render_expr(&val.data).as_str()).concat(" ").concat(
            render_enclosed(&block.data.0).as_str(),
        ),
        Branch::While { val, block } => String::from_str("while ").concat(
            render_expr(&val.data).as_str(),
        ).concat(" ").concat(render_enclosed(&block.data.0).as_str()),
        Branch::Loop { block } => String::from_str("loop ").concat(
            render_enclosed(&block.data.0).as_str(),
        ),
    }
}

/// The canonical text of a postfix chain.
pub fn render_primary(p: &Primary) -> (s: String)
    ensures
        s@ == primary_text(p@),
    decreases p,
{
    match p {
        Primary::Attribute(lhs, name) => render_primary(&lhs.data).concat(".").concat(
            name.data.as_str(),
        ),
        Primary::Subscription(lhs, items) => render_primary(&lhs.data).concat("[").concat(
            render_exprs(items, ", ").as_str(),
        ).concat("]"),
        Primary::Call(lhs, args) => render_primary(&lhs.data).concat("(").concat(
            render_list_items(&args.data.0, ", ").as_str(),
        ).concat(")"),
        Primary::Atom(a) => render_atom(a),
    }
}

/// The canonical text of an atom.
pub fn render_atom(a: &Atom) -> (s: String)
    ensures
        s@ == atom_text(a@),
    decreases a,
{
    match a {
        Atom::Id(x) => x.clone(),
        Atom::Integer(n) => render_integer(*n),
        Atom::String(x) => String::from_str("\"").concat(x.as_str()).concat("\""),
        Atom::Boolean(b) => if *b {
            String::from_str("true")
        } else {
            String::from_str("false")
        },
        Atom::Null => String::from_str("null"),
        Atom::Paren(item) => String::from_str("(").concat(
            render_list_item(&item.data).as_str(),
        ).concat(")"),
        Atom::Tuple(items) => if items.len() == 1 {
            String::from_str("(").concat(render_list_items(items, ", ").as_str()).concat(",)")
        } else {
            String::from_str("(").concat(render_list_items(items, ", ").as_str()).concat(")")
        },
        Atom::ListDisplay(items) => String::from_str("[").concat(
            render_list_items(items, ", ").as_str(),
        ).concat("]"),
        Atom::DictDisplay(items) => String::from_str("{").concat(
            render_dict_items(items, ", ").as_str(),
        ).concat("}"),
    }
}

fn render_list_item(item: &ListItem) -> (s: String)
    ensures
        s@ == list_item_text(item@),
    decreases item,
{
    match item {
        ListItem::Expr(e) => render_expr(e),
        ListItem::Spread(e) => String::from_str("...").concat(render_expr(&e.data).as_str()),
    }
}

fn render_dict_item(item: &DictItem) -> (s: String)
    ensures
        s@ == dict_item_text(item@),
    decreases item,
{
    match item {
        DictItem::Shorthand(k) => k.clone(),
        DictItem::Spread(e) => String::from_str("...").concat(render_expr(&e.data).as_str()),
        DictItem::KeyVal { key, val } => (*key.data).clone().concat(": ").concat(
            render_expr(&val.data).as_str(),
        ),
    }
}

fn render_exprs(items: &Vec<Node<Expr>>, sep: &str) -> (s: String)
    ensures
        s@ == joined(expr_texts(expr_nodes_view(items@)), sep@),
    decreases items, 0nat,
{
    let ghost texts = expr_texts(expr_nodes_view(items@));
    let mut out = String::new();
    let mut i: usize = 0;
    proof {
        assert(texts.take(0) =~= Seq::<Seq<char>>::empty());
    }
    while i < items.len()
        invariant
            i <= items@.len(),
            texts == expr_texts(expr_nodes_view(items@)),
            texts.len() == items@.len(),
            out@ == joined(texts.take(i as int), sep@),
        decreases items@.len() - i,
    {
        let text = render_expr(&items[i].data);
        proof {
            lemma_joined_step(texts, i as int, sep@);
            assert(texts[i as int] == text@);
            if i == 0 {
                assert(out@ + text@ =~= text@);
            }
        }
        if i > 0 {
            out.append(sep);
        }
        out.append(text.as_str());
        i += 1;
    }
    proof {
        assert(texts.take(i as int) =~= texts);
    }
    out
}

fn render_list_items(items: &Vec<Node<ListItem>>, sep: &str) -> (s: String)
    ensures
        s@ == joined(list_item_texts(list_item_nodes_view(items@)), sep@),
    decreases items,
{
    let ghost texts = list_item_texts(list_item_nodes_view(items@));
    let mut out = String::new();
    let mut i: usize = 0;
    proof {
        assert(texts.take(0) =~= Seq::<Seq<char>>::empty());
    }
    while i < items.len()
        invariant
            i <= items@.len(),
            texts == list_item_texts(list_item_nodes_view(items@)),
            texts.len() == items@.len(),
            out@ == joined(texts.take(i as int), sep@),
        decreases items@.len() - i,
    {
        let text = render_list_item(&items[i].data);
        proof {
            lemma_joined_step(texts, i as int, sep@);
            assert(texts[i as int] == text@);
            if i == 0 {
                assert(out@ + text@ =~= text@);
            }
        }
        if i > 0 {
            out.append(sep);
        }
        out.append(text.as_str());
        i += 1;
    }
    proof {
        assert(texts.take(i as int) =~= texts);
    }
    out
}

fn render_dict_items(items: &Vec<Node<DictItem>>, sep: &str) -> (s: String)
    ensures
        s@ == joined(dict_item_texts(dict_item_nodes_view(items@)), sep@),
    decreases items,
{
    let ghost texts = dict_item_texts(dict_item_nodes_view(items@));
    let mut out = String::new();
    let mut i: usize = 0;
    proof {
        assert(texts.take(0) =~= Seq::<Seq<char>>::empty());
    }
    while i < items.len()
        invariant
            i <= items@.len(),
            texts == dict_item_texts(dict_item_nodes_view(items@)),
            texts.len() == items@.len(),
            out@ == joined(texts.take(i as int), sep@),
        decreases items@.len() - i,
    {
        let text = render_dict_item(&items[i].data);
        proof {
            lemma_joined_step(texts, i as int, sep@);
            assert(texts[i as int] == text@);
            if i == 0 {
                assert(out@ + text@ =~= text@);
            }
        }
        if i > 0 {
            out.append(sep);
        }
        out.append(text.as_str());
        i += 1;
    }
    proof {
        assert(texts.take(i as int) =~= texts);
    }
    out
}

/// The canonical text of the tree under `n`: its tokens spelled out in
/// order, with the layout of the language between them.
pub fn render(n: &Node<Expr>) -> (s: String)
    ensures
        s@ == expr_text(*n@.data),
        same_text(s@, spelled(tokens_of(n@))),
{
    proof {
        law_text_spells_tokens(n@);
    }
    render_expr(&n.data)
}

/// How a token is spelled in source text.
pub fn spelling(t: &Token) -> (s: String)
    ensures
        s@ == token_text(t@),
{
    match t {
        Token::DELIM => String::from_str("\n"),
        Token::COMMA => String::from_str(","),
        Token::COLON => String::from_str(":"),
        Token::DOT => String::from_str("."),
        Token::SPREAD => String::from_str("..."),
        Token::ASSIGNE => String::from_str(":="),
        Token::OR => String::from_str("or"),
        Token::AND => String::from_str("and"),
        Token::NOT => String::from_str("not"),
        Token::EQ => String::from_str("=="),
        Token::NE => String::from_str("!="),
        Token::LT => String::from_str("<"),
        Token::LE => String::from_str("<="),
        Token::GT => String::from_str(">"),
        Token::GE => String::from_str(">="),
        Token::RANGE => String::from_str(".."),
        Token::RANGEI => String::from_str("..="),
        Token::ADD => String::from_str("+"),
        Token::SUB => String::from_str("-"),
        Token::MUL => String::from_str("*"),
        Token::DIV => String::from_str("/"),
        Token::MOD => String::from_str("%"),
        Token::POW => String::from_str("^"),
        Token::DIE => String::from_str("d"),
        Token::LPAREN => String::from_str("("),
        Token::RPAREN => String::from_str(")"),
        Token::LBRACKET => String::from_str("["),
        Token::RBRACKET => String::from_str("]"),
        Token::LBRACE => String::from_str("{"),
        Token::RBRACE => String::from_str("}"),
        Token::NULL => String::from_str("null"),
        Token::IF => String::from_str("if"),
        Token::ELSE => String::from_str("else"),
        Token::MATCH => String::from_str("match"),
        Token::FOR => String::from_str("for"),
        Token::IN => String::from_str("in"),
        Token::WHILE => String::from_str("while"),
        Token::LOOP => String::from_str("loop"),
        Token::ARROW => String::from_str("=>"),
        Token::Boolean(b) => if *b {
            String::from_str("true")
        } else {
            String::from_str("false")
        },
        Token::Integer(n) => render_integer(*n),
        Token::Id(x) => x.clone(),
        Token::String(x) => String::from_str("\"").concat(x.as_str()).concat("\""),
    }
}

impl Render for Expr {
    open spec fn rendering(&self) -> Seq<char> {
        expr_text(self@)
    }

    fn render(&self) -> (s: String) {
        render_expr(self)
    }
}

impl Render for Primary {
    open spec fn rendering(&self) -> Seq<char> {
        primary_text(self@)
    }

    fn render(&self) -> (s: String) {
        render_primary(self)
    }
}

impl Render for Atom {
    open spec fn rendering(&self) -> Seq<char> {
        atom_text(self@)
    }

    fn render(&self) -> (s: String) {
        render_atom(self)
    }
}

impl Render for ListItem {
    open spec fn rendering(&self) -> Seq<char> {
        list_item_text(self@)
    }

    fn render(&self) -> (s: String) {
        render_list_item(self)
    }
}

impl Render for DictItem {
    open spec fn rendering(&self) -> Seq<char> {
        dict_item_text(self@)
    }

    fn render(&self) -> (s: String) {
        render_dict_item(self)
    }
}

impl Render for Range {
    open spec fn rendering(&self) -> Seq<char> {
        range_text(self@)
    }

    fn render(&self) -> (s: String) {
        render_range(self)
    }
}

impl Render for Branch {
    open spec fn rendering(&self) -> Seq<char> {
        branch_text(self@)
    }

    fn render(&self) -> (s: String) {
        render_branch(self)
    }
}

impl Render for Args {
    open spec fn rendering(&self) -> Seq<char> {
        joined(list_item_texts(self@), ", "@)
    }

    fn render(&self) -> (s: String) {
        render_list_items(&self.0, ", ")
    }
}

impl Render for ArgsDef {
    open spec fn rendering(&self) -> Seq<char> {
        joined(target_texts(self@), ", "@)
    }

    fn render(&self) -> (s: String) {
        render_targets(&self.0, ", ")
    }
}

impl Render for ExprBlock {
    open spec fn rendering(&self) -> Seq<char> {
        block_text(self@)
    }

    fn render(&self) -> (s: String) {
        if self.0.len() <= 1 {
            render_exprs(&self.0, "\n")
        } else {
            render_enclosed(&self.0)
        }
    }
}

impl Render for ExprBlockTop {
    open spec fn rendering(&self) -> Seq<char> {
        top_text(self@)
    }

    fn render(&self) -> (s: String) {
        render_exprs(&self.0, "\n")
    }
}

impl Render for ExprBlockEnclosed {
    open spec fn rendering(&self) -> Seq<char> {
        enclosed_text(self@)
    }

    fn render(&self) -> (s: String) {
        render_enclosed(&self.0)
    }
}

impl Render for Target {
    open spec fn rendering(&self) -> Seq<char> {
        target_text(self@)
    }

    fn render(&self) -> (s: String) {
        render_target(self)
    }
}

impl Render for TargetListItem {
    open spec fn rendering(&self) -> Seq<char> {
        target_list_item_text(self@)
    }

    fn render(&self) -> (s: String) {
        render_target_list_item(self)
    }
}

impl Render for TargetDictItem {
    open spec fn rendering(&self) -> Seq<char> {
        target_dict_item_text(self@)
    }

    fn render(&self) -> (s: String) {
        render_target_dict_item(self)
    }
}

impl Render for TargetList {
    open spec fn rendering(&self) -> Seq<char> {
        target_list_text(self@)
    }

    fn render(&self) -> (s: String) {
        match self {
            TargetList::Target(t) => render_target(t),
            TargetList::List(items) => if items.len() == 1 {
                render_targets(items, ", ").concat(",")
            } else {
                render_targets(items, ", ")
            },
        }
    }
}

impl Render for OpArith {
    open spec fn rendering(&self) -> Seq<char> {
        arith_symbol(*self)
    }

    fn render(&self) -> (s: String) {
        String::from_str(self.symbol())
    }
}

impl Render for OpEqs {
    open spec fn rendering(&self) -> Seq<char> {
        eqs_symbol(*self)
    }

    fn render(&self) -> (s: String) {
        String::from_str(self.symbol())
    }
}

impl Render for OpRange {
    open spec fn rendering(&self) -> Seq<char> {
        range_symbol(*self)
    }

    fn render(&self) -> (s: String) {
        String::from_str(self.symbol())
    }
}

impl Render for String {
    open spec fn rendering(&self) -> Seq<char> {
        self@
    }

    fn render(&self) -> (s: String) {
        self.clone()
    }
}

} // verus!
