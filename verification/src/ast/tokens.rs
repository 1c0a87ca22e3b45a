use super::model::{
    AtomV, BlockV, BranchV, DictItemV, ExprV, ListItemV, PrimaryV, RangeV, TargetDictItemV,
    TargetListItemV, TargetV,
};
use super::op::{OpArith, OpEqs};
use crate::token::TokenV;
use crate::types::Node;
use vstd::prelude::*;

verus! {

/// The token that an arithmetic operator is read from.
pub open spec fn arith_token(op: OpArith) -> TokenV {
    match op {
        OpArith::ADD => TokenV::ADD,
        OpArith::SUB => TokenV::SUB,
        OpArith::MUL => TokenV::MUL,
        OpArith::DIV => TokenV::DIV,
        OpArith::MOD => TokenV::MOD,
        OpArith::POW => TokenV::POW,
    }
}

/// The token that a comparison operator is read from.
pub open spec fn eqs_token(op: OpEqs) -> TokenV {
    match op {
        OpEqs::EQ => TokenV::EQ,
        OpEqs::NE => TokenV::NE,
        OpEqs::LT => TokenV::LT,
        OpEqs::LE => TokenV::LE,
        OpEqs::GT => TokenV::GT,
        OpEqs::GE => TokenV::GE,
    }
}

/// The tokens that a pattern is written with.
pub open spec fn target_tokens(t: TargetV) -> Seq<TokenV>
    decreases t,
{
    match t {
        TargetV::Id(x) => seq![TokenV::Id(x)],
        TargetV::TargetTuple(items) => seq![TokenV::LPAREN] + target_list_items_tokens(
            items,
            items.len(),
        ) + seq![TokenV::RPAREN],
        TargetV::TargetList(items) => seq![TokenV::LBRACKET] + target_list_items_tokens(
            items,
            items.len(),
        ) + seq![TokenV::RBRACKET],
        TargetV::TargetDict(items) => seq![TokenV::LBRACE] + target_dict_items_tokens(
            items,
            items.len(),
        ) + seq![TokenV::RBRACE],
    }
}

/// The tokens of an item of a tuple or list pattern.
pub open spec fn target_list_item_tokens(item: TargetListItemV) -> Seq<TokenV>
    decreases item,
{
    match item {
        TargetListItemV::Target(t) => target_tokens(t),
        TargetListItemV::Spread(t) => seq![TokenV::SPREAD] + target_tokens(*t.data),
    }
}

/// The tokens of the first `n` items, with a comma between each two.
pub open spec fn target_list_items_tokens(items: Seq<Node<TargetListItemV>>, n: nat) -> Seq<
    TokenV,
>
    decreases items, n,
{
    if n == 0 || n > items.len() {
        Seq::empty()
    } else if n == 1 {
        target_list_item_tokens(*items[0].data)
    } else {
        target_list_items_tokens(items, (n - 1) as nat) + seq![TokenV::COMMA]
            + target_list_item_tokens(*items[n - 1].data)
    }
}

/// The tokens of an item of a dict pattern.
pub open spec fn target_dict_item_tokens(item: TargetDictItemV) -> Seq<TokenV>
    decreases item,
{
    match item {
        TargetDictItemV::Shorthand(k) => seq![TokenV::Id(k)],
        TargetDictItemV::Spread(t) => seq![TokenV::SPREAD] + target_tokens(*t.data),
        TargetDictItemV::Pair { key, val } => seq![TokenV::Id(*key.data), TokenV::COLON]
            + target_tokens(*val.data),
    }
}

/// The tokens of the first `n` items, with a comma between each two.
pub open spec fn target_dict_items_tokens(items: Seq<Node<TargetDictItemV>>, n: nat) -> Seq<
    TokenV,
>
    decreases items, n,
{
    if n == 0 || n > items.len() {
        Seq::empty()
    } else if n == 1 {
        target_dict_item_tokens(*items[0].data)
    } else {
        target_dict_items_tokens(items, (n - 1) as nat) + seq![TokenV::COMMA]
            + target_dict_item_tokens(*items[n - 1].data)
    }
}

/// The tokens of the first `n` patterns, with a comma between each two.
pub open spec fn targets_tokens(items: Seq<Node<TargetV>>, n: nat) -> Seq<TokenV>
    decreases items, n,
{
    if n == 0 || n > items.len() {
        Seq::empty()
    } else if n == 1 {
        target_tokens(*items[0].data)
    } else {
        targets_tokens(items, (n - 1) as nat) + seq![TokenV::COMMA] + target_tokens(
            *items[n - 1].data,
        )
    }
}

/// The tokens that an expression is written with: what a lexer reads from
/// its canonical text.
pub open spec fn expr_tokens(e: ExprV) -> Seq<TokenV>
    decreases e,
{
    match e {
        ExprV::Assign(lhs, rhs) => target_tokens(*lhs.data) + seq![TokenV::ASSIGNE] + expr_tokens(
            *rhs.data,
        ),
        ExprV::Branch(b) => branch_tokens(b),
        ExprV::Function { args, block } => seq![TokenV::LPAREN] + targets_tokens(
            *args.data,
            args.data.len(),
        ) + seq![TokenV::RPAREN, TokenV::ARROW] + block_tokens(*block.data),
        ExprV::And(lhs, rhs) => expr_tokens(*lhs.data) + seq![TokenV::AND] + expr_tokens(
            *rhs.data,
        ),
        ExprV::Or(lhs, rhs) => expr_tokens(*lhs.data) + seq![TokenV::OR] + expr_tokens(*rhs.data),
        ExprV::Not(val) => seq![TokenV::NOT] + expr_tokens(*val.data),
        ExprV::CompareBound { l_val, l_op, val, r_op, r_val } => expr_tokens(*l_val.data)
            + seq![eqs_token(*l_op.data)] + expr_tokens(*val.data) + seq![eqs_token(*r_op.data)]
            + expr_tokens(*r_val.data),
        ExprV::Compare(lhs, op, rhs) => expr_tokens(*lhs.data) + seq![eqs_token(*op.data)]
            + expr_tokens(*rhs.data),
        ExprV::Range(r) => range_tokens(r),
        ExprV::Arith(lhs, op, rhs) => expr_tokens(*lhs.data) + seq![arith_token(*op.data)]
            + expr_tokens(*rhs.data),
        ExprV::Unary(op, val) => seq![arith_token(*op.data)] + expr_tokens(*val.data),
        ExprV::Coefficient(lhs, rhs) => atom_tokens(*lhs.data) + expr_tokens(*rhs.data),
        ExprV::Die(val) => seq![TokenV::DIE] + if *val.data is Id {
            seq![TokenV::LPAREN] + atom_tokens(*val.data) + seq![TokenV::RPAREN]
        } else {
            atom_tokens(*val.data)
        },
        ExprV::Primary(p) => primary_tokens(p),
    }
}

/// The tokens of the first `n` expressions, with a comma between each two.
pub open spec fn exprs_tokens(items: Seq<Node<ExprV>>, n: nat) -> Seq<TokenV>
    decreases items, n,
{
    if n == 0 || n > items.len() {
        Seq::empty()
    } else if n == 1 {
        expr_tokens(*items[0].data)
    } else {
        exprs_tokens(items, (n - 1) as nat) + seq![TokenV::COMMA] + expr_tokens(
            *items[n - 1].data,
        )
    }
}

/// The tokens of the first `n` expressions of a block, each on a line of
/// its own.
pub open spec fn lines_tokens(items: Seq<Node<ExprV>>, n: nat) -> Seq<TokenV>
    decreases items, n,
{
    if n == 0 || n > items.len() {
        Seq::empty()
    } else if n == 1 {
        expr_tokens(*items[0].data)
    } else {
        lines_tokens(items, (n - 1) as nat) + seq![TokenV::DELIM] + expr_tokens(
            *items[n - 1].data,
        )
    }
}

/// The tokens of a block in braces.
pub open spec fn block_tokens(block: BlockV) -> Seq<TokenV>
    decreases block, block.len() + 1,
{
    seq![TokenV::LBRACE, TokenV::DELIM] + lines_tokens(block, block.len()) + seq![
        TokenV::DELIM,
        TokenV::RBRACE,
    ]
}

/// The tokens of a range.
pub open spec fn range_tokens(r: RangeV) -> Seq<TokenV>
    decreases r,
{
    match r {
        RangeV::Range { start, end } => expr_tokens(*start.data) + seq![TokenV::RANGE]
            + expr_tokens(*end.data),
        RangeV::RangeI { start, end } => expr_tokens(*start.data) + seq![TokenV::RANGEI]
            + expr_tokens(*end.data),
        RangeV::RangeFrom { start } => expr_tokens(*start.data) + seq![TokenV::RANGE],
        RangeV::RangeTo { end } => seq![TokenV::RANGE] + expr_tokens(*end.data),
        RangeV::RangeToI { end } => seq![TokenV::RANGEI] + expr_tokens(*end.data),
        RangeV::RangeFull => seq![TokenV::RANGE],
    }
}

/// The tokens of a control-flow form.
pub open spec fn branch_tokens(b: BranchV) -> Seq<TokenV>
    decreases b,
{
    match b {
        BranchV::If { val, block, else_block } => seq![TokenV::IF] + expr_tokens(*val.data)
            + block_tokens(*block.data) + match else_block {
            Some(e) => seq![TokenV::ELSE] + block_tokens(*e.data),
            None => Seq::empty(),
        },
        BranchV::Match { val, block } => seq![TokenV::MATCH] + expr_tokens(*val.data)
            + block_tokens(*block.data),
        BranchV::For { target, val, block } => seq![TokenV::FOR] + target_tokens(*target.data)
            + seq![TokenV::IN] + expr_tokens(*val.data) + block_tokens(*block.data),
        BranchV::While { val, block } => seq![TokenV::WHILE] + expr_tokens(*val.data)
            + block_tokens(*block.data),
        BranchV::Loop { block } => seq![TokenV::LOOP] + block_tokens(*block.data),
    }
}

/// The tokens of a postfix chain.
pub open spec fn primary_tokens(p: PrimaryV) -> Seq<TokenV>
    decreases p,
{
    match p {
        PrimaryV::Attribute(lhs, name) => primary_tokens(*lhs.data) + seq![
            TokenV::DOT,
            TokenV::Id(*name.data),
        ],
        PrimaryV::Subscription(lhs, items) => primary_tokens(*lhs.data) + seq![TokenV::LBRACKET]
            + exprs_tokens(items, items.len()) + seq![TokenV::RBRACKET],
        PrimaryV::Call(lhs, args) => primary_tokens(*lhs.data) + seq![TokenV::LPAREN]
            + list_items_tokens(*args.data, args.data.len()) + seq![TokenV::RPAREN],
        PrimaryV::Atom(a) => atom_tokens(a),
    }
}

/// The tokens of an atom.
pub open spec fn atom_tokens(a: AtomV) -> Seq<TokenV>
    decreases a,
{
    match a {
        AtomV::Id(x) => seq![TokenV::Id(x)],
        AtomV::Integer(n) => seq![TokenV::Integer(n)],
        AtomV::String(x) => seq![TokenV::String(x)],
        AtomV::Boolean(b) => seq![TokenV::Boolean(b)],
        AtomV::Null => seq![TokenV::NULL],
        AtomV::Paren(item) => seq![TokenV::LPAREN] + list_item_tokens(*item.data) + seq![
            TokenV::RPAREN,
        ],
        AtomV::Tuple(items) => seq![TokenV::LPAREN] + list_items_tokens(items, items.len())
            + seq![TokenV::RPAREN],
        AtomV::ListDisplay(items) => seq![TokenV::LBRACKET] + list_items_tokens(
            items,
            items.len(),
        ) + seq![TokenV::RBRACKET],
        AtomV::DictDisplay(items) => seq![TokenV::LBRACE] + dict_items_tokens(
            items,
            items.len(),
        ) + seq![TokenV::RBRACE],
    }
}

/// The tokens of an item.
pub open spec fn list_item_tokens(item: ListItemV) -> Seq<TokenV>
    decreases item,
{
    match item {
        ListItemV::Expr(e) => expr_tokens(e),
        ListItemV::Spread(e) => seq![TokenV::SPREAD] + expr_tokens(*e.data),
    }
}

/// The tokens of the first `n` items, with a comma between each two.
pub open spec fn list_items_tokens(items: Seq<Node<ListItemV>>, n: nat) -> Seq<TokenV>
    decreases items, n,
{
    if n == 0 || n > items.len() {
        Seq::empty()
    } else if n == 1 {
        list_item_tokens(*items[0].data)
    } else {
        list_items_tokens(items, (n - 1) as nat) + seq![TokenV::COMMA] + list_item_tokens(
            *items[n - 1].data,
        )
    }
}

/// The tokens of a dict item.
pub open spec fn dict_item_tokens(item: DictItemV) -> Seq<TokenV>
    decreases item,
{
    match item {
        DictItemV::Shorthand(k) => seq![TokenV::Id(k)],
        DictItemV::Spread(e) => seq![TokenV::SPREAD] + expr_tokens(*e.data),
        DictItemV::KeyVal { key, val } => seq![TokenV::Id(*key.data), TokenV::COLON] + expr_tokens(
            *val.data,
        ),
    }
}

/// The tokens of the first `n` items, with a comma between each two.
pub open spec fn dict_items_tokens(items: Seq<Node<DictItemV>>, n: nat) -> Seq<TokenV>
    decreases items, n,
{
    if n == 0 || n > items.len() {
        Seq::empty()
    } else if n == 1 {
        dict_item_tokens(*items[0].data)
    } else {
        dict_items_tokens(items, (n - 1) as nat) + seq![TokenV::COMMA] + dict_item_tokens(
            *items[n - 1].data,
        )
    }
}

/// The tokens that the tree under `n` is written with.
pub open spec fn tokens_of(n: Node<ExprV>) -> Seq<TokenV> {
    expr_tokens(*n.data)
}

} // verus!
