use super::text::integer_text;
use crate::token::TokenV;
use vstd::prelude::*;

verus! {

/// How a token is spelled in source text.
pub open spec fn token_text(t: TokenV) -> Seq<char> {
    match t {
        TokenV::DELIM => "\n"@,
        TokenV::COMMA => ","@,
        TokenV::COLON => ":"@,
        TokenV::DOT => "."@,
        TokenV::SPREAD => "..."@,
        TokenV::ASSIGNE => ":="@,
        TokenV::OR => "or"@,
        TokenV::AND => "and"@,
        TokenV::NOT => "not"@,
        TokenV::EQ => "=="@,
        TokenV::NE => "!="@,
        TokenV::LT => "<"@,
        TokenV::LE => "<="@,
        TokenV::GT => ">"@,
        TokenV::GE => ">="@,
        TokenV::RANGE => ".."@,
        TokenV::RANGEI => "..="@,
        TokenV::ADD => "+"@,
        TokenV::SUB => "-"@,
        TokenV::MUL => "*"@,
        TokenV::DIV => "/"@,
        TokenV::MOD => "%"@,
        TokenV::POW => "^"@,
        TokenV::DIE => "d"@,
        TokenV::LPAREN => "("@,
        TokenV::RPAREN => ")"@,
        TokenV::LBRACKET => "["@,
        TokenV::RBRACKET => "]"@,
        TokenV::LBRACE => "{"@,
        TokenV::RBRACE => "}"@,
        TokenV::NULL => "null"@,
        TokenV::IF => "if"@,
        TokenV::ELSE => "else"@,
        TokenV::MATCH => "match"@,
        TokenV::FOR => "for"@,
        TokenV::IN => "in"@,
        TokenV::WHILE => "while"@,
        TokenV::LOOP => "loop"@,
        TokenV::ARROW => "=>"@,
        TokenV::Boolean(b) => if b {
            "true"@
        } else {
            "false"@
        },
        TokenV::Integer(n) => integer_text(n as int),
        TokenV::Id(x) => x,
        TokenV::String(x) => "\""@ + x + "\""@,
    }
}

/// The spellings of a sequence of tokens, one behind the other.
pub open spec fn spelled(ts: Seq<TokenV>) -> Seq<char>
    decreases ts.len(),
{
    if ts.len() == 0 {
        Seq::empty()
    } else {
        spelled(ts.drop_last()) + token_text(ts.last())
    }
}

/// A text without its blanks and commas: what is left when the layout
/// between tokens is taken away.
pub open spec fn bare_text(s: Seq<char>) -> Seq<char> {
    s.filter(|c: char| c != ' ' && c != ',')
}

/// Two texts that differ in blanks and commas only.
pub open spec fn same_text(a: Seq<char>, b: Seq<char>) -> bool {
    bare_text(a) == bare_text(b)
}

} // verus!
