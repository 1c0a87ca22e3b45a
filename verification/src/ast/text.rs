use super::model::{
    AtomV, BlockV, BranchV, DictItemV, ExprV, ListItemV, PrimaryV, RangeV, TargetDictItemV,
    TargetListItemV, TargetListV, TargetV,
};
use super::op::{OpArith, OpEqs, OpRange};
use crate::types::{joined, Node};
use vstd::prelude::*;

verus! {

/// One decimal digit.
pub open spec fn digit_text(d: int) -> Seq<char> {
    if d == 0 {
        "0"@
    } else if d == 1 {
        "1"@
    } else if d == 2 {
        "2"@
    } else if d == 3 {
        "3"@
    } else if d == 4 {
        "4"@
    } else if d == 5 {
        "5"@
    } else if d == 6 {
        "6"@
    } else if d == 7 {
        "7"@
    } else if d == 8 {
        "8"@
    } else {
        "9"@
    }
}

/// A natural number in decimal, without leading zeros.
pub open spec fn digits_text(n: nat) -> Seq<char>
    decreases n,
{
    if n < 10 {
        digit_text(n as int)
    } else {
        digits_text(n / 10) + digit_text((n % 10) as int)
    }
}

/// An integer in decimal, with `-` in front of a negative one.
pub open spec fn integer_text(n: int) -> Seq<char> {
    if n < 0 {
        "-"@ + digits_text((-n) as nat)
    } else {
        digits_text(n as nat)
    }
}

/// The sign of an arithmetic operator.
pub open spec fn arith_symbol(op: OpArith) -> Seq<char> {
    match op {
        OpArith::ADD => "+"@,
        OpArith::SUB => "-"@,
        OpArith::MUL => "*"@,
        OpArith::DIV => "/"@,
        OpArith::MOD => "%"@,
        OpArith::POW => "^"@,
    }
}

/// What stands on both sides of a binary operator: nothing around `*` and
/// `^`, which are written tight, and a blank around the others.
pub open spec fn arith_space(op: OpArith) -> Seq<char> {
    match op {
        OpArith::MUL => ""@,
        OpArith::POW => ""@,
        _ => " "@,
    }
}

/// The sign of a comparison operator.
pub open spec fn eqs_symbol(op: OpEqs) -> Seq<char> {
    match op {
        OpEqs::EQ => "=="@,
        OpEqs::NE => "!="@,
        OpEqs::LT => "<"@,
        OpEqs::LE => "<="@,
        OpEqs::GT => ">"@,
        OpEqs::GE => ">="@,
    }
}

/// The sign of a range operator.
pub open spec fn range_symbol(op: OpRange) -> Seq<char> {
    match op {
        OpRange::RANGE => ".."@,
        OpRange::RANGEI => "..="@,
    }
}

/// The canonical text of a pattern.
pub open spec fn target_text(t: TargetV) -> Seq<char>
    decreases t,
{
    match t {
        TargetV::Id(x) => x,
        TargetV::TargetTuple(items) => "("@ + joined(target_list_item_texts(items), ", "@) + ")"@,
        TargetV::TargetList(items) => "["@ + joined(target_list_item_texts(items), ", "@) + "]"@,
        TargetV::TargetDict(items) => "{"@ + joined(target_dict_item_texts(items), ", "@) + "}"@,
    }
}

/// The texts of the patterns of a sequence.
pub open spec fn target_texts(items: Seq<Node<TargetV>>) -> Seq<Seq<char>>
    decreases items,
{
    Seq::new(
        items.len(),
        |i: int|
            if 0 <= i < items.len() {
                target_text(*items[i].data)
            } else {
                arbitrary()
            },
    )
}

/// The canonical text of an item of a tuple or list pattern.
pub open spec fn target_list_item_text(item: TargetListItemV) -> Seq<char>
    decreases item,
{
    match item {
        TargetListItemV::Target(t) => target_text(t),
        TargetListItemV::Spread(t) => "..."@ + target_text(*t.data),
    }
}

/// The texts of the items of a tuple or list pattern.
pub open spec fn target_list_item_texts(items: Seq<Node<TargetListItemV>>) -> Seq<Seq<char>>
    decreases items,
{
    Seq::new(
        items.len(),
        |i: int|
            if 0 <= i < items.len() {
                target_list_item_text(*items[i].data)
            } else {
                arbitrary()
            },
    )
}

/// The canonical text of an item of a dict pattern.
pub open spec fn target_dict_item_text(item: TargetDictItemV) -> Seq<char>
    decreases item,
{
    match item {
        TargetDictItemV::Shorthand(k) => k,
        TargetDictItemV::Spread(t) => "..."@ + target_text(*t.data),
        TargetDictItemV::Pair { key, val } => *key.data + ": "@ + target_text(*val.data),
    }
}

/// The texts of the items of a dict pattern.
pub open spec fn target_dict_item_texts(items: Seq<Node<TargetDictItemV>>) -> Seq<Seq<char>>
    decreases items,
{
    Seq::new(
        items.len(),
        |i: int|
            if 0 <= i < items.len() {
                target_dict_item_text(*items[i].data)
            } else {
                arbitrary()
            },
    )
}

/// Patterns written without brackets: a single one in a list keeps a
/// comma behind it.
pub open spec fn target_list_text(t: TargetListV) -> Seq<char> {
    match t {
        TargetListV::Target(t) => target_text(t),
        TargetListV::List(items) => if items.len() == 1 {
            joined(target_texts(items), ", "@) + ","@
        } else {
            joined(target_texts(items), ", "@)
        },
    }
}

/// The canonical text of an expression.
pub open spec fn expr_text(e: ExprV) -> Seq<char>
    decreases e,
{
    match e {
        ExprV::Assign(lhs, rhs) => target_text(*lhs.data) + " := "@ + expr_text(*rhs.data),
        ExprV::Branch(b) => branch_text(b),
        ExprV::Function { args, block } => "("@ + joined(target_texts(*args.data), ", "@)
            + ") => "@ + enclosed_text(*block.data),
        ExprV::And(lhs, rhs) => expr_text(*lhs.data) + " and "@ + expr_text(*rhs.data),
        ExprV::Or(lhs, rhs) => expr_text(*lhs.data) + " or "@ + expr_text(*rhs.data),
        ExprV::Not(val) => "not "@ + expr_text(*val.data),
        ExprV::CompareBound { l_val, l_op, val, r_op, r_val } => expr_text(*l_val.data) + " "@
            + eqs_symbol(*l_op.data) + " "@ + expr_text(*val.data) + " "@ + eqs_symbol(
            *r_op.data,
        ) + " "@ + expr_text(*r_val.data),
        ExprV::Compare(lhs, op, rhs) => expr_text(*lhs.data) + " "@ + eqs_symbol(*op.data) + " "@
            + expr_text(*rhs.data),
        ExprV::Range(r) => range_text(r),
        ExprV::Arith(lhs, op, rhs) => expr_text(*lhs.data) + arith_space(*op.data) + arith_symbol(
            *op.data,
        ) + arith_space(*op.data) + expr_text(*rhs.data),
        ExprV::Unary(op, val) => arith_symbol(*op.data) + expr_text(*val.data),
        ExprV::Coefficient(lhs, rhs) => atom_text(*lhs.data) + expr_text(*rhs.data),
        ExprV::Die(val) => if *val.data is Id {
            "d("@ + atom_text(*val.data) + ")"@
        } else {
            "d"@ + atom_text(*val.data)
        },
        ExprV::Primary(p) => primary_text(p),
    }
}

/// The texts of the expressions of a sequence.
pub open spec fn expr_texts(items: Seq<Node<ExprV>>) -> Seq<Seq<char>>
    decreases items, 0nat,
{
    Seq::new(
        items.len(),
        |i: int|
            if 0 <= i < items.len() {
                expr_text(*items[i].data)
            } else {
                arbitrary()
            },
    )
}

/// A block in braces, each expression on a line of its own.
pub open spec fn enclosed_text(block: BlockV) -> Seq<char>
    decreases block, 1nat,
{
    "{\n"@ + joined(expr_texts(block), "\n"@) + "\n}"@
}

/// A block at the top: each expression on a line of its own.
pub open spec fn top_text(block: BlockV) -> Seq<char> {
    joined(expr_texts(block), "\n"@)
}

/// A block that shows its braces only around several expressions.
pub open spec fn block_text(block: BlockV) -> Seq<char> {
    if block.len() <= 1 {
        top_text(block)
    } else {
        enclosed_text(block)
    }
}

/// The canonical text of a range.
pub open spec fn range_text(r: RangeV) -> Seq<char>
    decreases r,
{
    match r {
        RangeV::Range { start, end } => expr_text(*start.data) + ".."@ + expr_text(*end.data),
        RangeV::RangeI { start, end } => expr_text(*start.data) + "..="@ + expr_text(*end.data),
        RangeV::RangeFrom { start } => expr_text(*start.data) + ".."@,
        RangeV::RangeTo { end } => ".."@ + expr_text(*end.data),
        RangeV::RangeToI { end } => "..="@ + expr_text(*end.data),
        RangeV::RangeFull => ".."@,
    }
}

/// The canonical text of a control-flow form.
pub open spec fn branch_text(b: BranchV) -> Seq<char>
    decreases b,
{
    match b {
        BranchV::If { val, block, else_block } => "if "@ + expr_text(*val.data) + " "@
            + enclosed_text(*block.data) + match else_block {
            Some(e) => " else "@ + enclosed_text(*e.data),
            None => ""@,
        },
        BranchV::Match { val, block } => "match "@ + expr_text(*val.data) + " "@ + enclosed_text(
            *block.data,
        ),
        BranchV::For { target, val, block } => "for "@ + target_text(*target.data) + " in "@
            + expr_text(*val.data) + " "@ + enclosed_text(*block.data),
        BranchV::While { val, block } => "while "@ + expr_text(*val.data) + " "@ + enclosed_text(
            *block.data,
        ),
        BranchV::Loop { block } => "loop "@ + enclosed_text(*block.data),
    }
}

/// The canonical text of a postfix chain.
pub open spec fn primary_text(p: PrimaryV) -> Seq<char>
    decreases p,
{
    match p {
        PrimaryV::Attribute(lhs, name) => primary_text(*lhs.data) + "."@ + *name.data,
        PrimaryV::Subscription(lhs, items) => primary_text(*lhs.data) + "["@ + joined(
            expr_texts(items),
            ", "@,
        ) + "]"@,
        PrimaryV::Call(lhs, args) => primary_text(*lhs.data) + "("@ + joined(
            list_item_texts(*args.data),
            ", "@,
        ) + ")"@,
        PrimaryV::Atom(a) => atom_text(a),
    }
}

/// The canonical text of an atom: a tuple of one item keeps a comma
/// behind the item.
pub open spec fn atom_text(a: AtomV) -> Seq<char>
    decreases a,
{
    match a {
        AtomV::Id(x) => x,
        AtomV::Integer(n) => integer_text(n as int),
        AtomV::String(x) => "\""@ + x + "\""@,
        AtomV::Boolean(b) => if b {
            "true"@
        } else {
            "false"@
        },
        AtomV::Null => "null"@,
        AtomV::Paren(item) => "("@ + list_item_text(*item.data) + ")"@,
        AtomV::Tuple(items) => if items.len() == 1 {
            "("@ + joined(list_item_texts(items), ", "@) + ",)"@
        } else {
            "("@ + joined(list_item_texts(items), ", "@) + ")"@
        },
        AtomV::ListDisplay(items) => "["@ + joined(list_item_texts(items), ", "@) + "]"@,
        AtomV::DictDisplay(items) => "{"@ + joined(dict_item_texts(items), ", "@) + "}"@,
    }
}

/// The canonical text of an item.
pub open spec fn list_item_text(item: ListItemV) -> Seq<char>
    decreases item,
{
    match item {
        ListItemV::Expr(e) => expr_text(e),
        ListItemV::Spread(e) => "..."@ + expr_text(*e.data),
    }
}

/// The texts of the items of a sequence.
pub open spec fn list_item_texts(items: Seq<Node<ListItemV>>) -> Seq<Seq<char>>
    decreases items,
{
    Seq::new(
        items.len(),
        |i: int|
            if 0 <= i < items.len() {
                list_item_text(*items[i].data)
            } else {
                arbitrary()
            },
    )
}

/// The canonical text of a dict item.
pub open spec fn dict_item_text(item: DictItemV) -> Seq<char>
    decreases item,
{
    match item {
        DictItemV::Shorthand(k) => k,
        DictItemV::Spread(e) => "..."@ + expr_text(*e.data),
        DictItemV::KeyVal { key, val } => *key.data + ": "@ + expr_text(*val.data),
    }
}

/// The texts of the dict items of a sequence.
pub open spec fn dict_item_texts(items: Seq<Node<DictItemV>>) -> Seq<Seq<char>>
    decreases items,
{
    Seq::new(
        items.len(),
        |i: int|
            if 0 <= i < items.len() {
                dict_item_text(*items[i].data)
            } else {
                arbitrary()
            },
    )
}

} // verus!
