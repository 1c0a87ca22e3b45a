use crate::ast::model::{
    AtomV, BlockV, BranchV, DictItemV, ExprV, ListItemV, PrimaryV, RangeV, TargetDictItemV,
    TargetListItemV, TargetV,
};
use crate::ast::op::{OpArith, OpEqs};
use crate::ast::spelling::{bare_text, same_text, spelled, token_text};
use crate::ast::text::{
    arith_space, arith_symbol, atom_text, branch_text, dict_item_text, dict_item_texts,
    enclosed_text, eqs_symbol, expr_text, expr_texts, list_item_text, list_item_texts,
    primary_text, range_text, target_dict_item_text, target_dict_item_texts,
    target_list_item_text, target_list_item_texts, target_text, target_texts,
};
use crate::ast::tokens::{
    arith_token, atom_tokens, block_tokens, branch_tokens, dict_item_tokens, dict_items_tokens,
    eqs_token, expr_tokens, exprs_tokens, lines_tokens, list_item_tokens, list_items_tokens,
    primary_tokens, range_tokens, target_dict_item_tokens, target_dict_items_tokens,
    target_list_item_tokens, target_list_items_tokens, target_tokens, targets_tokens,
};
use crate::token::TokenV;
use crate::types::{joined, lemma_joined_step, Node};
use vstd::prelude::*;

verus! {

broadcast use Seq::filter_distributes_over_add;

/// Taking the layout away goes through a concatenation.
pub proof fn lemma_bare_add(a: Seq<char>, b: Seq<char>)
    ensures
        bare_text(a + b) == bare_text(a) + bare_text(b),
{
    Seq::filter_distributes_over_add(a, b, |c: char| c != ' ' && c != ',');
}

/// Texts that are the same part by part are the same as a whole.
pub proof fn lemma_same_add(a1: Seq<char>, b1: Seq<char>, a2: Seq<char>, b2: Seq<char>)
    requires
        same_text(a1, a2),
        same_text(b1, b2),
    ensures
        same_text(a1 + b1, a2 + b2),
{
    lemma_bare_add(a1, b1);
    lemma_bare_add(a2, b2);
}

/// One blank or comma is layout.
pub proof fn lemma_bare_one(s: Seq<char>)
    requires
        s.len() == 1,
        s[0] == ' ' || s[0] == ',',
    ensures
        bare_text(s) == Seq::<char>::empty(),
{
    reveal_with_fuel(Seq::filter, 2);
    assert(s.drop_last() =~= Seq::<char>::empty());
}

/// Nothing is nothing.
pub proof fn lemma_bare_none()
    ensures
        bare_text(Seq::<char>::empty()) == Seq::<char>::empty(),
{
}

/// Layout between two texts does not count.
pub proof fn lemma_padded(a: Seq<char>, pad: Seq<char>, b: Seq<char>)
    requires
        bare_text(pad) == Seq::<char>::empty(),
    ensures
        same_text(a + pad + b, a + b),
        same_text(a + pad, a),
        same_text(pad + b, b),
{
    lemma_bare_add(a, pad);
    lemma_bare_add(a + pad, b);
    lemma_bare_add(a, b);
    lemma_bare_add(pad, b);
    assert(bare_text(a) + Seq::<char>::empty() =~= bare_text(a));
    assert(Seq::<char>::empty() + bare_text(b) =~= bare_text(b));
}

/// The spellings of two runs of tokens, one behind the other.
pub proof fn lemma_spelled_add(a: Seq<TokenV>, b: Seq<TokenV>)
    ensures
        spelled(a + b) == spelled(a) + spelled(b),
    decreases b.len(),
{
    if b.len() == 0 {
        assert(a + b =~= a);
        assert(spelled(a) + Seq::<char>::empty() =~= spelled(a));
    } else {
        lemma_spelled_add(a, b.drop_last());
        assert((a + b).drop_last() =~= a + b.drop_last());
        assert((a + b).last() == b.last());
        assert(spelled(a) + (spelled(b.drop_last()) + token_text(b.last())) =~= spelled(a)
            + spelled(b.drop_last()) + token_text(b.last()));
    }
}

/// The spelling of one token.
pub proof fn lemma_spelled_one(t: TokenV)
    ensures
        spelled(seq![t]) == token_text(t),
{
    reveal_with_fuel(spelled, 2);
    assert(seq![t].drop_last() =~= Seq::<TokenV>::empty());
    assert(Seq::<char>::empty() + token_text(t) =~= token_text(t));
}

/// A word with layout in front of it and behind it is that word.
pub proof fn lemma_word(padded: Seq<char>, lead: Seq<char>, word: Seq<char>, trail: Seq<char>)
    requires
        padded == lead + word + trail,
        bare_text(lead) == Seq::<char>::empty(),
        bare_text(trail) == Seq::<char>::empty(),
    ensures
        same_text(padded, word),
{
    lemma_bare_add(lead, word);
    lemma_bare_add(lead + word, trail);
    assert(Seq::<char>::empty() + bare_text(word) =~= bare_text(word));
    assert(bare_text(word) + Seq::<char>::empty() =~= bare_text(word));
}

/// The blanks that the canonical text puts around keywords and operators
/// are layout, and so are the commas between items.
pub proof fn lemma_layout()
    ensures
        bare_text(" "@) == Seq::<char>::empty(),
        bare_text(""@) == Seq::<char>::empty(),
        bare_text(", "@) == Seq::<char>::empty(),
        bare_text(","@) == Seq::<char>::empty(),
        same_text(" := "@, ":="@),
        same_text(" and "@, "and"@),
        same_text(" or "@, "or"@),
        same_text("not "@, "not"@),
        same_text(": "@, ":"@),
        same_text("if "@, "if"@),
        same_text(" else "@, "else"@),
        same_text("match "@, "match"@),
        same_text("for "@, "for"@),
        same_text(" in "@, "in"@),
        same_text("while "@, "while"@),
        same_text("loop "@, "loop"@),
        same_text(") => "@, ")"@ + "=>"@),
        same_text("d("@, "d"@ + "("@),
        same_text("{\n"@, "{"@ + "\n"@),
        same_text("\n}"@, "\n"@ + "}"@),
        same_text(",)"@, ")"@),
{
    reveal_strlit(" ");
    reveal_strlit("");
    reveal_strlit(",");
    lemma_bare_one(" "@);
    lemma_bare_one(","@);
    assert(""@ =~= Seq::<char>::empty());
    let blank = " "@;
    let none = Seq::<char>::empty();
    lemma_bare_none();
    assert(bare_text(none) == none);
    assert(bare_text(", "@) == none) by {
        reveal_strlit(", ");
        assert(", "@ =~= ","@ + blank);
        lemma_bare_add(","@, blank);
    }
    assert(same_text(" := "@, ":="@)) by {
        reveal_strlit(" := ");
        reveal_strlit(":=");
        assert(" := "@ =~= blank + ":="@ + blank);
        lemma_word(" := "@, blank, ":="@, blank);
    }
    assert(same_text(" and "@, "and"@)) by {
        reveal_strlit(" and ");
        reveal_strlit("and");
        assert(" and "@ =~= blank + "and"@ + blank);
        lemma_word(" and "@, blank, "and"@, blank);
    }
    assert(same_text(" or "@, "or"@)) by {
        reveal_strlit(" or ");
        reveal_strlit("or");
        assert(" or "@ =~= blank + "or"@ + blank);
        lemma_word(" or "@, blank, "or"@, blank);
    }
    assert(same_text("not "@, "not"@)) by {
        reveal_strlit("not ");
        reveal_strlit("not");
        assert("not "@ =~= none + "not"@ + blank);
        lemma_word("not "@, none, "not"@, blank);
    }
    assert(same_text(": "@, ":"@)) by {
        reveal_strlit(": ");
        reveal_strlit(":");
        assert(": "@ =~= none + ":"@ + blank);
        lemma_word(": "@, none, ":"@, blank);
    }
    assert(same_text("if "@, "if"@)) by {
        reveal_strlit("if ");
        reveal_strlit("if");
        assert("if "@ =~= none + "if"@ + blank);
        lemma_word("if "@, none, "if"@, blank);
    }
    assert(same_text(" else "@, "else"@)) by {
        reveal_strlit(" else ");
        reveal_strlit("else");
        assert(" else "@ =~= blank + "else"@ + blank);
        lemma_word(" else "@, blank, "else"@, blank);
    }
    assert(same_text("match "@, "match"@)) by {
        reveal_strlit("match ");
        reveal_strlit("match");
        assert("match "@ =~= none + "match"@ + blank);
        lemma_word("match "@, none, "match"@, blank);
    }
    assert(same_text("for "@, "for"@)) by {
        reveal_strlit("for ");
        reveal_strlit("for");
        assert("for "@ =~= none + "for"@ + blank);
        lemma_word("for "@, none, "for"@, blank);
    }
    assert(same_text(" in "@, "in"@)) by {
        reveal_strlit(" in ");
        reveal_strlit("in");
        assert(" in "@ =~= blank + "in"@ + blank);
        lemma_word(" in "@, blank, "in"@, blank);
    }
    assert(same_text("while "@, "while"@)) by {
        reveal_strlit("while ");
        reveal_strlit("while");
        assert("while "@ =~= none + "while"@ + blank);
        lemma_word("while "@, none, "while"@, blank);
    }
    assert(same_text("loop "@, "loop"@)) by {
        reveal_strlit("loop ");
        reveal_strlit("loop");
        assert("loop "@ =~= none + "loop"@ + blank);
        lemma_word("loop "@, none, "loop"@, blank);
    }
    assert(same_text(") => "@, ")"@ + "=>"@)) by {
        reveal_strlit(") => ");
        reveal_strlit(")");
        reveal_strlit("=>");
        assert(") => "@ =~= ")"@ + blank + "=>"@ + blank);
        lemma_padded(")"@, blank, "=>"@);
        lemma_padded(")"@ + blank + "=>"@, blank, none);
        assert(")"@ + blank + "=>"@ + blank + none =~= ")"@ + blank + "=>"@ + blank);
        assert(")"@ + blank + "=>"@ + none =~= ")"@ + blank + "=>"@);
    }
    assert(same_text("d("@, "d"@ + "("@)) by {
        reveal_strlit("d(");
        reveal_strlit("d");
        reveal_strlit("(");
        assert("d("@ =~= "d"@ + "("@);
    }
    assert(same_text("{\n"@, "{"@ + "\n"@)) by {
        reveal_strlit("{\n");
        reveal_strlit("{");
        reveal_strlit("\n");
        assert("{\n"@ =~= "{"@ + "\n"@);
    }
    assert(same_text("\n}"@, "\n"@ + "}"@)) by {
        reveal_strlit("\n}");
        reveal_strlit("}");
        reveal_strlit("\n");
        assert("\n}"@ =~= "\n"@ + "}"@);
    }
    assert(same_text(",)"@, ")"@)) by {
        reveal_strlit(",)");
        reveal_strlit(")");
        assert(",)"@ =~= ","@ + ")"@);
        lemma_padded(none, ","@, ")"@);
        assert(none + ","@ + ")"@ =~= ","@ + ")"@);
        assert(none + ")"@ =~= ")"@);
    }
}


/// Three parts that are the same one by one are the same as a whole.
pub proof fn lemma_glued(
    a1: Seq<char>,
    b1: Seq<char>,
    c1: Seq<char>,
    a2: Seq<char>,
    b2: Seq<char>,
    c2: Seq<char>,
)
    requires
        same_text(a1, a2),
        same_text(b1, b2),
        same_text(c1, c2),
    ensures
        same_text(a1 + b1 + c1, a2 + b2 + c2),
{
    lemma_same_add(a1, b1, a2, b2);
    lemma_same_add(a1 + b1, c1, a2 + b2, c2);
}

/// No text joined is no text.
pub proof fn lemma_joined_step_none(texts: Seq<Seq<char>>, sep: Seq<char>)
    ensures
        joined(texts.take(0), sep) == Seq::<char>::empty(),
        spelled(Seq::<TokenV>::empty()) == Seq::<char>::empty(),
{
    assert(texts.take(0).len() == 0);
}

/// The sign of an operator is the spelling of its token.
pub proof fn lemma_signs(a: OpArith, e: OpEqs)
    ensures
        arith_symbol(a) == token_text(arith_token(a)),
        eqs_symbol(e) == token_text(eqs_token(e)),
        bare_text(arith_space(a)) == Seq::<char>::empty(),
{
    lemma_layout();
}

/// An operator between two operands, with layout around it.
pub proof fn lemma_infix(
    l: Seq<char>,
    pad: Seq<char>,
    sign: Seq<char>,
    r: Seq<char>,
    lk: Seq<TokenV>,
    op: TokenV,
    rk: Seq<TokenV>,
)
    requires
        same_text(l, spelled(lk)),
        same_text(r, spelled(rk)),
        bare_text(pad) == Seq::<char>::empty(),
        same_text(sign, token_text(op)),
    ensures
        same_text(l + pad + sign + pad + r, spelled(lk + seq![op] + rk)),
        same_text(l + sign + r, spelled(lk + seq![op] + rk)),
{
    lemma_spelled_add(lk + seq![op], rk);
    lemma_spelled_add(lk, seq![op]);
    lemma_spelled_one(op);
    assert(bare_text(l + pad + sign + pad + r) =~= bare_text(l) + bare_text(sign) + bare_text(r));
    assert(bare_text(l + sign + r) =~= bare_text(l) + bare_text(sign) + bare_text(r));
    assert(bare_text(spelled(lk) + token_text(op) + spelled(rk)) =~= bare_text(spelled(lk))
        + bare_text(token_text(op)) + bare_text(spelled(rk)));
}

/// A token in front of a text.
pub proof fn lemma_prefix(word: Seq<char>, r: Seq<char>, op: TokenV, rk: Seq<TokenV>)
    requires
        same_text(word, token_text(op)),
        same_text(r, spelled(rk)),
    ensures
        same_text(word + r, spelled(seq![op] + rk)),
{
    lemma_spelled_add(seq![op], rk);
    lemma_spelled_one(op);
}

/// A token behind a text.
pub proof fn lemma_suffix_token(l: Seq<char>, word: Seq<char>, lk: Seq<TokenV>, op: TokenV)
    requires
        same_text(word, token_text(op)),
        same_text(l, spelled(lk)),
    ensures
        same_text(l + word, spelled(lk + seq![op])),
{
    lemma_spelled_add(lk, seq![op]);
    lemma_spelled_one(op);
}

/// A text between an opening and a closing token.
pub proof fn lemma_bracketed(
    open: Seq<char>,
    inner: Seq<char>,
    close: Seq<char>,
    o: TokenV,
    ik: Seq<TokenV>,
    c: TokenV,
)
    requires
        same_text(open, token_text(o)),
        same_text(inner, spelled(ik)),
        same_text(close, token_text(c)),
    ensures
        same_text(open + inner + close, spelled(seq![o] + ik + seq![c])),
{
    lemma_spelled_add(seq![o] + ik, seq![c]);
    lemma_spelled_add(seq![o], ik);
    lemma_spelled_one(o);
    lemma_spelled_one(c);
}

/// The canonical text of a pattern is the spelling of its tokens, but for
/// layout.
pub proof fn lemma_target_spelled(t: TargetV)
    ensures
        same_text(target_text(t), spelled(target_tokens(t))),
    decreases t,
{
    lemma_layout();
    match t {
        TargetV::Id(x) => {
            lemma_spelled_one(TokenV::Id(x));
        },
        TargetV::TargetTuple(items) => {
            lemma_target_list_items_joined(items, items.len());
            lemma_joined_step_all(target_list_item_texts(items));
            lemma_bracketed(
                "("@,
                joined(target_list_item_texts(items), ", "@),
                ")"@,
                TokenV::LPAREN,
                target_list_items_tokens(items, items.len()),
                TokenV::RPAREN,
            );
        },
        TargetV::TargetList(items) => {
            lemma_target_list_items_joined(items, items.len());
            lemma_joined_step_all(target_list_item_texts(items));
            lemma_bracketed(
                "["@,
                joined(target_list_item_texts(items), ", "@),
                "]"@,
                TokenV::LBRACKET,
                target_list_items_tokens(items, items.len()),
                TokenV::RBRACKET,
            );
        },
        TargetV::TargetDict(items) => {
            lemma_target_dict_items_joined(items, items.len());
            lemma_joined_step_all(target_dict_item_texts(items));
            lemma_bracketed(
                "{"@,
                joined(target_dict_item_texts(items), ", "@),
                "}"@,
                TokenV::LBRACE,
                target_dict_items_tokens(items, items.len()),
                TokenV::RBRACE,
            );
        },
    }
}

/// All texts of a sequence are its first `len` texts.
pub proof fn lemma_joined_step_all(texts: Seq<Seq<char>>)
    ensures
        texts.take(texts.len() as int) == texts,
{
    assert(texts.take(texts.len() as int) =~= texts);
}

pub proof fn lemma_target_list_item_spelled(item: TargetListItemV)
    ensures
        same_text(target_list_item_text(item), spelled(target_list_item_tokens(item))),
    decreases item,
{
    match item {
        TargetListItemV::Target(t) => {
            lemma_target_spelled(t);
        },
        TargetListItemV::Spread(t) => {
            lemma_target_spelled(*t.data);
            lemma_prefix("..."@, target_text(*t.data), TokenV::SPREAD, target_tokens(*t.data));
        },
    }
}

pub proof fn lemma_target_dict_item_spelled(item: TargetDictItemV)
    ensures
        same_text(target_dict_item_text(item), spelled(target_dict_item_tokens(item))),
    decreases item,
{
    lemma_layout();
    match item {
        TargetDictItemV::Shorthand(k) => {
            lemma_spelled_one(TokenV::Id(k));
        },
        TargetDictItemV::Spread(t) => {
            lemma_target_spelled(*t.data);
            lemma_prefix("..."@, target_text(*t.data), TokenV::SPREAD, target_tokens(*t.data));
        },
        TargetDictItemV::Pair { key, val } => {
            lemma_target_spelled(*val.data);
            lemma_key(*key.data, target_text(*val.data), target_tokens(*val.data));
        },
    }
}

/// A key, a colon, and a value.
pub proof fn lemma_key(key: Seq<char>, val: Seq<char>, vk: Seq<TokenV>)
    requires
        same_text(val, spelled(vk)),
    ensures
        same_text(key + ": "@ + val, spelled(seq![TokenV::Id(key), TokenV::COLON] + vk)),
{
    lemma_layout();
    lemma_spelled_add(seq![TokenV::Id(key), TokenV::COLON], vk);
    assert(seq![TokenV::Id(key), TokenV::COLON] =~= seq![TokenV::Id(key)] + seq![TokenV::COLON]);
    lemma_spelled_add(seq![TokenV::Id(key)], seq![TokenV::COLON]);
    lemma_spelled_one(TokenV::Id(key));
    lemma_spelled_one(TokenV::COLON);
    lemma_glued(key, ": "@, val, key, ":"@, spelled(vk));
}

pub proof fn lemma_targets_joined(items: Seq<Node<TargetV>>, n: nat)
    requires
        n <= items.len(),
    ensures
        same_text(joined(target_texts(items).take(n as int), ", "@), spelled(targets_tokens(items, n))),
    decreases items, n,
{
    lemma_layout();
    let texts = target_texts(items);
    if n == 0 {
        lemma_joined_step_none(texts, ", "@);
    } else {
        let last = *items[n - 1].data;
        lemma_targets_joined(items, (n - 1) as nat);
        lemma_target_spelled(last);
        lemma_joined_step(texts, n - 1, ", "@);
        assert(texts[n - 1] == target_text(last));
        if n > 1 {
            let before = targets_tokens(items, (n - 1) as nat);
            lemma_spelled_add(before + seq![TokenV::COMMA], target_tokens(last));
            lemma_spelled_add(before, seq![TokenV::COMMA]);
            lemma_spelled_one(TokenV::COMMA);
            lemma_glued(
                joined(texts.take(n - 1), ", "@),
                ", "@,
                texts[n - 1],
                spelled(before),
                token_text(TokenV::COMMA),
                spelled(target_tokens(last)),
            );
        }
    }
}

pub proof fn lemma_target_list_items_joined(items: Seq<Node<TargetListItemV>>, n: nat)
    requires
        n <= items.len(),
    ensures
        same_text(joined(target_list_item_texts(items).take(n as int), ", "@), spelled(target_list_items_tokens(items, n))),
    decreases items, n,
{
    lemma_layout();
    let texts = target_list_item_texts(items);
    if n == 0 {
        lemma_joined_step_none(texts, ", "@);
    } else {
        let last = *items[n - 1].data;
        lemma_target_list_items_joined(items, (n - 1) as nat);
        lemma_target_list_item_spelled(last);
        lemma_joined_step(texts, n - 1, ", "@);
        assert(texts[n - 1] == target_list_item_text(last));
        if n > 1 {
            let before = target_list_items_tokens(items, (n - 1) as nat);
            lemma_spelled_add(before + seq![TokenV::COMMA], target_list_item_tokens(last));
            lemma_spelled_add(before, seq![TokenV::COMMA]);
            lemma_spelled_one(TokenV::COMMA);
            lemma_glued(
                joined(texts.take(n - 1), ", "@),
                ", "@,
                texts[n - 1],
                spelled(before),
                token_text(TokenV::COMMA),
                spelled(target_list_item_tokens(last)),
            );
        }
    }
}

pub proof fn lemma_target_dict_items_joined(items: Seq<Node<TargetDictItemV>>, n: nat)
    requires
        n <= items.len(),
    ensures
        same_text(joined(target_dict_item_texts(items).take(n as int), ", "@), spelled(target_dict_items_tokens(items, n))),
    decreases items, n,
{
    lemma_layout();
    let texts = target_dict_item_texts(items);
    if n == 0 {
        lemma_joined_step_none(texts, ", "@);
    } else {
        let last = *items[n - 1].data;
        lemma_target_dict_items_joined(items, (n - 1) as nat);
        lemma_target_dict_item_spelled(last);
        lemma_joined_step(texts, n - 1, ", "@);
        assert(texts[n - 1] == target_dict_item_text(last));
        if n > 1 {
            let before = target_dict_items_tokens(items, (n - 1) as nat);
            lemma_spelled_add(before + seq![TokenV::COMMA], target_dict_item_tokens(last));
            lemma_spelled_add(before, seq![TokenV::COMMA]);
            lemma_spelled_one(TokenV::COMMA);
            lemma_glued(
                joined(texts.take(n - 1), ", "@),
                ", "@,
                texts[n - 1],
                spelled(before),
                token_text(TokenV::COMMA),
                spelled(target_dict_item_tokens(last)),
            );
        }
    }
}


/// One text behind another.
pub proof fn lemma_then(a: Seq<char>, b: Seq<char>, ak: Seq<TokenV>, bk: Seq<TokenV>)
    requires
        same_text(a, spelled(ak)),
        same_text(b, spelled(bk)),
    ensures
        same_text(a + b, spelled(ak + bk)),
{
    lemma_spelled_add(ak, bk);
    lemma_same_add(a, b, spelled(ak), spelled(bk));
}

/// Layout behind a text does not count.
pub proof fn lemma_trailing(a: Seq<char>, pad: Seq<char>, b: Seq<char>)
    requires
        same_text(a, b),
        bare_text(pad) == Seq::<char>::empty(),
    ensures
        same_text(a + pad, b),
{
    lemma_padded(a, pad, Seq::empty());
}

/// The spelling of two tokens.
pub proof fn lemma_spelled_two(t1: TokenV, t2: TokenV)
    ensures
        spelled(seq![t1, t2]) == token_text(t1) + token_text(t2),
{
    assert(seq![t1, t2] =~= seq![t1] + seq![t2]);
    lemma_spelled_add(seq![t1], seq![t2]);
    lemma_spelled_one(t1);
    lemma_spelled_one(t2);
}

/// The canonical text of an expression is the spelling of its tokens, but
/// for layout.
pub proof fn lemma_expr_spelled(e: ExprV)
    ensures
        same_text(expr_text(e), spelled(expr_tokens(e))),
    decreases e,
{
    lemma_layout();
    match e {
        ExprV::Assign(lhs, rhs) => {
            lemma_target_spelled(*lhs.data);
            lemma_expr_spelled(*rhs.data);
            lemma_infix(
                target_text(*lhs.data),
                " "@,
                " := "@,
                expr_text(*rhs.data),
                target_tokens(*lhs.data),
                TokenV::ASSIGNE,
                expr_tokens(*rhs.data),
            );
        },
        ExprV::Branch(b) => {
            lemma_branch_spelled(b);
        },
        ExprV::Function { args, block } => {
            lemma_targets_joined(*args.data, args.data.len());
            lemma_joined_step_all(target_texts(*args.data));
            lemma_block_spelled(*block.data);
            let j = joined(target_texts(*args.data), ", "@);
            let tk = targets_tokens(*args.data, args.data.len());
            lemma_prefix("("@, j, TokenV::LPAREN, tk);
            lemma_spelled_two(TokenV::RPAREN, TokenV::ARROW);
            lemma_then(
                "("@ + j,
                ") => "@,
                seq![TokenV::LPAREN] + tk,
                seq![TokenV::RPAREN, TokenV::ARROW],
            );
            lemma_then(
                "("@ + j + ") => "@,
                enclosed_text(*block.data),
                seq![TokenV::LPAREN] + tk + seq![TokenV::RPAREN, TokenV::ARROW],
                block_tokens(*block.data),
            );
        },
        ExprV::And(lhs, rhs) => {
            lemma_expr_spelled(*lhs.data);
            lemma_expr_spelled(*rhs.data);
            lemma_infix(
                expr_text(*lhs.data),
                " "@,
                " and "@,
                expr_text(*rhs.data),
                expr_tokens(*lhs.data),
                TokenV::AND,
                expr_tokens(*rhs.data),
            );
        },
        ExprV::Or(lhs, rhs) => {
            lemma_expr_spelled(*lhs.data);
            lemma_expr_spelled(*rhs.data);
            lemma_infix(
                expr_text(*lhs.data),
                " "@,
                " or "@,
                expr_text(*rhs.data),
                expr_tokens(*lhs.data),
                TokenV::OR,
                expr_tokens(*rhs.data),
            );
        },
        ExprV::Not(val) => {
            lemma_expr_spelled(*val.data);
            lemma_prefix("not "@, expr_text(*val.data), TokenV::NOT, expr_tokens(*val.data));
        },
        ExprV::CompareBound { l_val, l_op, val, r_op, r_val } => {
            lemma_expr_spelled(*l_val.data);
            lemma_expr_spelled(*val.data);
            lemma_expr_spelled(*r_val.data);
            lemma_signs(OpArith::ADD, *l_op.data);
            lemma_signs(OpArith::ADD, *r_op.data);
            lemma_infix(
                expr_text(*l_val.data),
                " "@,
                eqs_symbol(*l_op.data),
                expr_text(*val.data),
                expr_tokens(*l_val.data),
                eqs_token(*l_op.data),
                expr_tokens(*val.data),
            );
            lemma_infix(
                expr_text(*l_val.data) + " "@ + eqs_symbol(*l_op.data) + " "@ + expr_text(
                    *val.data,
                ),
                " "@,
                eqs_symbol(*r_op.data),
                expr_text(*r_val.data),
                expr_tokens(*l_val.data) + seq![eqs_token(*l_op.data)] + expr_tokens(*val.data),
                eqs_token(*r_op.data),
                expr_tokens(*r_val.data),
            );
        },
        ExprV::Compare(lhs, op, rhs) => {
            lemma_expr_spelled(*lhs.data);
            lemma_expr_spelled(*rhs.data);
            lemma_signs(OpArith::ADD, *op.data);
            lemma_infix(
                expr_text(*lhs.data),
                " "@,
                eqs_symbol(*op.data),
                expr_text(*rhs.data),
                expr_tokens(*lhs.data),
                eqs_token(*op.data),
                expr_tokens(*rhs.data),
            );
        },
        ExprV::Range(r) => {
            lemma_range_spelled(r);
        },
        ExprV::Arith(lhs, op, rhs) => {
            lemma_expr_spelled(*lhs.data);
            lemma_expr_spelled(*rhs.data);
            lemma_signs(*op.data, OpEqs::EQ);
            lemma_infix(
                expr_text(*lhs.data),
                arith_space(*op.data),
                arith_symbol(*op.data),
                expr_text(*rhs.data),
                expr_tokens(*lhs.data),
                arith_token(*op.data),
                expr_tokens(*rhs.data),
            );
        },
        ExprV::Unary(op, val) => {
            lemma_expr_spelled(*val.data);
            lemma_signs(*op.data, OpEqs::EQ);
            lemma_prefix(
                arith_symbol(*op.data),
                expr_text(*val.data),
                arith_token(*op.data),
                expr_tokens(*val.data),
            );
        },
        ExprV::Coefficient(lhs, rhs) => {
            lemma_atom_spelled(*lhs.data);
            lemma_expr_spelled(*rhs.data);
            lemma_then(
                atom_text(*lhs.data),
                expr_text(*rhs.data),
                atom_tokens(*lhs.data),
                expr_tokens(*rhs.data),
            );
        },
        ExprV::Die(val) => {
            lemma_atom_spelled(*val.data);
            let a = atom_text(*val.data);
            let ak = atom_tokens(*val.data);
            if *val.data is Id {
                lemma_bracketed("("@, a, ")"@, TokenV::LPAREN, ak, TokenV::RPAREN);
                lemma_prefix(
                    "d"@,
                    "("@ + a + ")"@,
                    TokenV::DIE,
                    seq![TokenV::LPAREN] + ak + seq![TokenV::RPAREN],
                );
                assert(bare_text("d("@ + a + ")"@) =~= bare_text("d"@ + ("("@ + a + ")"@))) by {
                    lemma_bare_add("d"@, "("@);
                    lemma_bare_add("d("@, a);
                    lemma_bare_add("d("@ + a, ")"@);
                    lemma_bare_add("("@, a);
                    lemma_bare_add("("@ + a, ")"@);
                    lemma_bare_add("d"@, "("@ + a + ")"@);
                }
            } else {
                lemma_prefix("d"@, a, TokenV::DIE, ak);
            }
        },
        ExprV::Primary(p) => {
            lemma_primary_spelled(p);
        },
    }
}

/// The same of a block in braces.
pub proof fn lemma_block_spelled(block: BlockV)
    ensures
        same_text(enclosed_text(block), spelled(block_tokens(block))),
    decreases block, block.len() + 1,
{
    lemma_layout();
    lemma_lines_joined(block, block.len());
    lemma_joined_step_all(expr_texts(block));
    lemma_spelled_two(TokenV::LBRACE, TokenV::DELIM);
    lemma_spelled_two(TokenV::DELIM, TokenV::RBRACE);
    lemma_then(
        "{\n"@,
        joined(expr_texts(block), "\n"@),
        seq![TokenV::LBRACE, TokenV::DELIM],
        lines_tokens(block, block.len()),
    );
    lemma_then(
        "{\n"@ + joined(expr_texts(block), "\n"@),
        "\n}"@,
        seq![TokenV::LBRACE, TokenV::DELIM] + lines_tokens(block, block.len()),
        seq![TokenV::DELIM, TokenV::RBRACE],
    );
}

/// The same of a range.
pub proof fn lemma_range_spelled(r: RangeV)
    ensures
        same_text(range_text(r), spelled(range_tokens(r))),
    decreases r,
{
    lemma_layout();
    match r {
        RangeV::Range { start, end } => {
            lemma_expr_spelled(*start.data);
            lemma_expr_spelled(*end.data);
            lemma_infix(
                expr_text(*start.data),
                ""@,
                ".."@,
                expr_text(*end.data),
                expr_tokens(*start.data),
                TokenV::RANGE,
                expr_tokens(*end.data),
            );
        },
        RangeV::RangeI { start, end } => {
            lemma_expr_spelled(*start.data);
            lemma_expr_spelled(*end.data);
            lemma_infix(
                expr_text(*start.data),
                ""@,
                "..="@,
                expr_text(*end.data),
                expr_tokens(*start.data),
                TokenV::RANGEI,
                expr_tokens(*end.data),
            );
        },
        RangeV::RangeFrom { start } => {
            lemma_expr_spelled(*start.data);
            lemma_suffix_token(
                expr_text(*start.data),
                ".."@,
                expr_tokens(*start.data),
                TokenV::RANGE,
            );
        },
        RangeV::RangeTo { end } => {
            lemma_expr_spelled(*end.data);
            lemma_prefix(".."@, expr_text(*end.data), TokenV::RANGE, expr_tokens(*end.data));
        },
        RangeV::RangeToI { end } => {
            lemma_expr_spelled(*end.data);
            lemma_prefix("..="@, expr_text(*end.data), TokenV::RANGEI, expr_tokens(*end.data));
        },
        RangeV::RangeFull => {
            lemma_spelled_one(TokenV::RANGE);
        },
    }
}

/// A keyword, a condition and a block: the head of a control-flow form.
pub proof fn lemma_headed(
    word: Seq<char>,
    key: TokenV,
    val: Seq<char>,
    vk: Seq<TokenV>,
    block: Seq<char>,
    bk: Seq<TokenV>,
)
    requires
        same_text(word, token_text(key)),
        same_text(val, spelled(vk)),
        same_text(block, spelled(bk)),
    ensures
        same_text(word + val + " "@ + block, spelled(seq![key] + vk + bk)),
{
    lemma_layout();
    lemma_prefix(word, val, key, vk);
    lemma_trailing(word + val, " "@, spelled(seq![key] + vk));
    lemma_then(word + val + " "@, block, seq![key] + vk, bk);
}

/// The same of a control-flow form.
pub proof fn lemma_branch_spelled(b: BranchV)
    ensures
        same_text(branch_text(b), spelled(branch_tokens(b))),
    decreases b,
{
    lemma_layout();
    match b {
        BranchV::If { val, block, else_block } => {
            lemma_expr_spelled(*val.data);
            lemma_block_spelled(*block.data);
            lemma_headed(
                "if "@,
                TokenV::IF,
                expr_text(*val.data),
                expr_tokens(*val.data),
                enclosed_text(*block.data),
                block_tokens(*block.data),
            );
            let head = "if "@ + expr_text(*val.data) + " "@ + enclosed_text(*block.data);
            let head_k = seq![TokenV::IF] + expr_tokens(*val.data) + block_tokens(*block.data);
            match else_block {
                Some(e) => {
                    lemma_block_spelled(*e.data);
                    lemma_prefix(
                        " else "@,
                        enclosed_text(*e.data),
                        TokenV::ELSE,
                        block_tokens(*e.data),
                    );
                    lemma_then(
                        head,
                        " else "@ + enclosed_text(*e.data),
                        head_k,
                        seq![TokenV::ELSE] + block_tokens(*e.data),
                    );
                },
                None => {
                    let none = Seq::<TokenV>::empty();
                    lemma_joined_step_none(Seq::empty(), ""@);
                    lemma_bare_none();
                    assert(same_text(""@, spelled(none)));
                    lemma_then(head, ""@, head_k, none);
                    assert(head_k + none =~= head_k);
                },
            }
        },
        BranchV::Match { val, block } => {
            lemma_expr_spelled(*val.data);
            lemma_block_spelled(*block.data);
            lemma_headed(
                "match "@,
                TokenV::MATCH,
                expr_text(*val.data),
                expr_tokens(*val.data),
                enclosed_text(*block.data),
                block_tokens(*block.data),
            );
        },
        BranchV::For { target, val, block } => {
            lemma_target_spelled(*target.data);
            lemma_expr_spelled(*val.data);
            lemma_block_spelled(*block.data);
            lemma_prefix(
                "for "@,
                target_text(*target.data),
                TokenV::FOR,
                target_tokens(*target.data),
            );
            lemma_infix(
                "for "@ + target_text(*target.data),
                ""@,
                " in "@,
                expr_text(*val.data),
                seq![TokenV::FOR] + target_tokens(*target.data),
                TokenV::IN,
                expr_tokens(*val.data),
            );
            let head = "for "@ + target_text(*target.data) + " in "@ + expr_text(*val.data);
            let head_k = seq![TokenV::FOR] + target_tokens(*target.data) + seq![TokenV::IN]
                + expr_tokens(*val.data);
            lemma_trailing(head, " "@, spelled(head_k));
            lemma_then(head + " "@, enclosed_text(*block.data), head_k, block_tokens(*block.data));
        },
        BranchV::While { val, block } => {
            lemma_expr_spelled(*val.data);
            lemma_block_spelled(*block.data);
            lemma_headed(
                "while "@,
                TokenV::WHILE,
                expr_text(*val.data),
                expr_tokens(*val.data),
                enclosed_text(*block.data),
                block_tokens(*block.data),
            );
        },
        BranchV::Loop { block } => {
            lemma_block_spelled(*block.data);
            lemma_prefix(
                "loop "@,
                enclosed_text(*block.data),
                TokenV::LOOP,
                block_tokens(*block.data),
            );
        },
    }
}

/// A suffix in brackets behind a chain.
pub proof fn lemma_suffixed(
    p: Seq<char>,
    open: Seq<char>,
    inner: Seq<char>,
    close: Seq<char>,
    pk: Seq<TokenV>,
    o: TokenV,
    ik: Seq<TokenV>,
    c: TokenV,
)
    requires
        same_text(p, spelled(pk)),
        same_text(open, token_text(o)),
        same_text(inner, spelled(ik)),
        same_text(close, token_text(c)),
    ensures
        same_text(p + open + inner + close, spelled(pk + seq![o] + ik + seq![c])),
{
    lemma_suffix_token(p, open, pk, o);
    lemma_then(p + open, inner, pk + seq![o], ik);
    lemma_suffix_token(p + open + inner, close, pk + seq![o] + ik, c);
}

/// The same of a postfix chain.
pub proof fn lemma_primary_spelled(p: PrimaryV)
    ensures
        same_text(primary_text(p), spelled(primary_tokens(p))),
    decreases p,
{
    lemma_layout();
    match p {
        PrimaryV::Attribute(lhs, name) => {
            lemma_primary_spelled(*lhs.data);
            lemma_spelled_two(TokenV::DOT, TokenV::Id(*name.data));
            lemma_spelled_add(primary_tokens(*lhs.data), seq![TokenV::DOT, TokenV::Id(*name.data)]);
            lemma_glued(
                primary_text(*lhs.data),
                "."@,
                *name.data,
                spelled(primary_tokens(*lhs.data)),
                "."@,
                *name.data,
            );
            assert(spelled(primary_tokens(*lhs.data)) + ("."@ + *name.data) =~= spelled(
                primary_tokens(*lhs.data),
            ) + "."@ + *name.data);
        },
        PrimaryV::Subscription(lhs, items) => {
            lemma_primary_spelled(*lhs.data);
            lemma_exprs_joined(items, items.len());
            lemma_joined_step_all(expr_texts(items));
            lemma_suffixed(
                primary_text(*lhs.data),
                "["@,
                joined(expr_texts(items), ", "@),
                "]"@,
                primary_tokens(*lhs.data),
                TokenV::LBRACKET,
                exprs_tokens(items, items.len()),
                TokenV::RBRACKET,
            );
        },
        PrimaryV::Call(lhs, args) => {
            lemma_primary_spelled(*lhs.data);
            lemma_list_items_joined(*args.data, args.data.len());
            lemma_joined_step_all(list_item_texts(*args.data));
            lemma_suffixed(
                primary_text(*lhs.data),
                "("@,
                joined(list_item_texts(*args.data), ", "@),
                ")"@,
                primary_tokens(*lhs.data),
                TokenV::LPAREN,
                list_items_tokens(*args.data, args.data.len()),
                TokenV::RPAREN,
            );
        },
        PrimaryV::Atom(a) => {
            lemma_atom_spelled(a);
        },
    }
}

/// The same of an atom.
pub proof fn lemma_atom_spelled(a: AtomV)
    ensures
        same_text(atom_text(a), spelled(atom_tokens(a))),
    decreases a,
{
    lemma_layout();
    match a {
        AtomV::Id(x) => {
            lemma_spelled_one(TokenV::Id(x));
        },
        AtomV::Integer(n) => {
            lemma_spelled_one(TokenV::Integer(n));
        },
        AtomV::String(x) => {
            lemma_spelled_one(TokenV::String(x));
        },
        AtomV::Boolean(b) => {
            lemma_spelled_one(TokenV::Boolean(b));
        },
        AtomV::Null => {
            lemma_spelled_one(TokenV::NULL);
        },
        AtomV::Paren(item) => {
            lemma_list_item_spelled(*item.data);
            lemma_bracketed(
                "("@,
                list_item_text(*item.data),
                ")"@,
                TokenV::LPAREN,
                list_item_tokens(*item.data),
                TokenV::RPAREN,
            );
        },
        AtomV::Tuple(items) => {
            lemma_list_items_joined(items, items.len());
            lemma_joined_step_all(list_item_texts(items));
            lemma_bracketed(
                "("@,
                joined(list_item_texts(items), ", "@),
                if items.len() == 1 {
                    ",)"@
                } else {
                    ")"@
                },
                TokenV::LPAREN,
                list_items_tokens(items, items.len()),
                TokenV::RPAREN,
            );
        },
        AtomV::ListDisplay(items) => {
            lemma_list_items_joined(items, items.len());
            lemma_joined_step_all(list_item_texts(items));
            lemma_bracketed(
                "["@,
                joined(list_item_texts(items), ", "@),
                "]"@,
                TokenV::LBRACKET,
                list_items_tokens(items, items.len()),
                TokenV::RBRACKET,
            );
        },
        AtomV::DictDisplay(items) => {
            lemma_dict_items_joined(items, items.len());
            lemma_joined_step_all(dict_item_texts(items));
            lemma_bracketed(
                "{"@,
                joined(dict_item_texts(items), ", "@),
                "}"@,
                TokenV::LBRACE,
                dict_items_tokens(items, items.len()),
                TokenV::RBRACE,
            );
        },
    }
}

/// The same of an item.
pub proof fn lemma_list_item_spelled(item: ListItemV)
    ensures
        same_text(list_item_text(item), spelled(list_item_tokens(item))),
    decreases item,
{
    match item {
        ListItemV::Expr(e) => {
            lemma_expr_spelled(e);
        },
        ListItemV::Spread(e) => {
            lemma_expr_spelled(*e.data);
            lemma_prefix("..."@, expr_text(*e.data), TokenV::SPREAD, expr_tokens(*e.data));
        },
    }
}

/// The same of a dict item.
pub proof fn lemma_dict_item_spelled(item: DictItemV)
    ensures
        same_text(dict_item_text(item), spelled(dict_item_tokens(item))),
    decreases item,
{
    match item {
        DictItemV::Shorthand(k) => {
            lemma_spelled_one(TokenV::Id(k));
        },
        DictItemV::Spread(e) => {
            lemma_expr_spelled(*e.data);
            lemma_prefix("..."@, expr_text(*e.data), TokenV::SPREAD, expr_tokens(*e.data));
        },
        DictItemV::KeyVal { key, val } => {
            lemma_expr_spelled(*val.data);
            lemma_key(*key.data, expr_text(*val.data), expr_tokens(*val.data));
        },
    }
}

pub proof fn lemma_exprs_joined(items: Seq<Node<ExprV>>, n: nat)
    requires
        n <= items.len(),
    ensures
        same_text(joined(expr_texts(items).take(n as int), ", "@), spelled(exprs_tokens(items, n))),
    decreases items, n,
{
    lemma_layout();
    let texts = expr_texts(items);
    if n == 0 {
        lemma_joined_step_none(texts, ", "@);
    } else {
        let last = *items[n - 1].data;
        lemma_exprs_joined(items, (n - 1) as nat);
        lemma_expr_spelled(last);
        lemma_joined_step(texts, n - 1, ", "@);
        assert(texts[n - 1] == expr_text(last));
        if n > 1 {
            let before = exprs_tokens(items, (n - 1) as nat);
            lemma_spelled_add(before + seq![TokenV::COMMA], expr_tokens(last));
            lemma_spelled_add(before, seq![TokenV::COMMA]);
            lemma_spelled_one(TokenV::COMMA);
            lemma_glued(
                joined(texts.take(n - 1), ", "@),
                ", "@,
                texts[n - 1],
                spelled(before),
                token_text(TokenV::COMMA),
                spelled(expr_tokens(last)),
            );
        }
    }
}

pub proof fn lemma_lines_joined(items: Seq<Node<ExprV>>, n: nat)
    requires
        n <= items.len(),
    ensures
        same_text(joined(expr_texts(items).take(n as int), "\n"@), spelled(lines_tokens(items, n))),
    decreases items, n,
{
    lemma_layout();
    let texts = expr_texts(items);
    if n == 0 {
        lemma_joined_step_none(texts, "\n"@);
    } else {
        let last = *items[n - 1].data;
        lemma_lines_joined(items, (n - 1) as nat);
        lemma_expr_spelled(last);
        lemma_joined_step(texts, n - 1, "\n"@);
        assert(texts[n - 1] == expr_text(last));
        if n > 1 {
            let before = lines_tokens(items, (n - 1) as nat);
            lemma_spelled_add(before + seq![TokenV::DELIM], expr_tokens(last));
            lemma_spelled_add(before, seq![TokenV::DELIM]);
            lemma_spelled_one(TokenV::DELIM);
            lemma_glued(
                joined(texts.take(n - 1), "\n"@),
                "\n"@,
                texts[n - 1],
                spelled(before),
                token_text(TokenV::DELIM),
                spelled(expr_tokens(last)),
            );
        }
    }
}

pub proof fn lemma_list_items_joined(items: Seq<Node<ListItemV>>, n: nat)
    requires
        n <= items.len(),
    ensures
        same_text(joined(list_item_texts(items).take(n as int), ", "@), spelled(list_items_tokens(items, n))),
    decreases items, n,
{
    lemma_layout();
    let texts = list_item_texts(items);
    if n == 0 {
        lemma_joined_step_none(texts, ", "@);
    } else {
        let last = *items[n - 1].data;
        lemma_list_items_joined(items, (n - 1) as nat);
        lemma_list_item_spelled(last);
        lemma_joined_step(texts, n - 1, ", "@);
        assert(texts[n - 1] == list_item_text(last));
        if n > 1 {
            let before = list_items_tokens(items, (n - 1) as nat);
            lemma_spelled_add(before + seq![TokenV::COMMA], list_item_tokens(last));
            lemma_spelled_add(before, seq![TokenV::COMMA]);
            lemma_spelled_one(TokenV::COMMA);
            lemma_glued(
                joined(texts.take(n - 1), ", "@),
                ", "@,
                texts[n - 1],
                spelled(before),
                token_text(TokenV::COMMA),
                spelled(list_item_tokens(last)),
            );
        }
    }
}

pub proof fn lemma_dict_items_joined(items: Seq<Node<DictItemV>>, n: nat)
    requires
        n <= items.len(),
    ensures
        same_text(joined(dict_item_texts(items).take(n as int), ", "@), spelled(dict_items_tokens(items, n))),
    decreases items, n,
{
    lemma_layout();
    let texts = dict_item_texts(items);
    if n == 0 {
        lemma_joined_step_none(texts, ", "@);
    } else {
        let last = *items[n - 1].data;
        lemma_dict_items_joined(items, (n - 1) as nat);
        lemma_dict_item_spelled(last);
        lemma_joined_step(texts, n - 1, ", "@);
        assert(texts[n - 1] == dict_item_text(last));
        if n > 1 {
            let before = dict_items_tokens(items, (n - 1) as nat);
            lemma_spelled_add(before + seq![TokenV::COMMA], dict_item_tokens(last));
            lemma_spelled_add(before, seq![TokenV::COMMA]);
            lemma_spelled_one(TokenV::COMMA);
            lemma_glued(
                joined(texts.take(n - 1), ", "@),
                ", "@,
                texts[n - 1],
                spelled(before),
                token_text(TokenV::COMMA),
                spelled(dict_item_tokens(last)),
            );
        }
    }
}

} // verus!
