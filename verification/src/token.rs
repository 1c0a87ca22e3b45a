use vstd::prelude::*;
use vstd::std_specs::cmp::PartialEqSpecImpl;

verus! {

/// A lexed token, without its span: an operator or keyword tag, or a
/// literal or identifier with its value.
#[derive(Clone, Debug)]
pub enum Token {
    DELIM,
    COMMA,
    COLON,
    DOT,
    SPREAD,
    ASSIGNE,
    OR,
    AND,
    NOT,
    EQ,
    NE,
    LT,
    LE,
    GT,
    GE,
    RANGE,
    RANGEI,
    ADD,
    SUB,
    MUL,
    DIV,
    MOD,
    POW,
    DIE,
    LPAREN,
    RPAREN,
    LBRACKET,
    RBRACKET,
    LBRACE,
    RBRACE,
    NULL,
    IF,
    ELSE,
    MATCH,
    FOR,
    IN,
    WHILE,
    LOOP,
    ARROW,
    Boolean(bool),
    Integer(i32),
    Id(String),
    String(String),
}

/// The mathematical model of a [`Token`]: the same tag, with text as a
/// sequence of characters.
pub enum TokenV {
    DELIM,
    COMMA,
    COLON,
    DOT,
    SPREAD,
    ASSIGNE,
    OR,
    AND,
    NOT,
    EQ,
    NE,
    LT,
    LE,
    GT,
    GE,
    RANGE,
    RANGEI,
    ADD,
    SUB,
    MUL,
    DIV,
    MOD,
    POW,
    DIE,
    LPAREN,
    RPAREN,
    LBRACKET,
    RBRACKET,
    LBRACE,
    RBRACE,
    NULL,
    IF,
    ELSE,
    MATCH,
    FOR,
    IN,
    WHILE,
    LOOP,
    ARROW,
    Boolean(bool),
    Integer(i32),
    Id(Seq<char>),
    String(Seq<char>),
}

impl View for Token {
    type V = TokenV;

    open spec fn view(&self) -> TokenV {
        match self {
            Token::DELIM => TokenV::DELIM,
            Token::COMMA => TokenV::COMMA,
            Token::COLON => TokenV::COLON,
            Token::DOT => TokenV::DOT,
            Token::SPREAD => TokenV::SPREAD,
            Token::ASSIGNE => TokenV::ASSIGNE,
            Token::OR => TokenV::OR,
            Token::AND => TokenV::AND,
            Token::NOT => TokenV::NOT,
            Token::EQ => TokenV::EQ,
            Token::NE => TokenV::NE,
            Token::LT => TokenV::LT,
            Token::LE => TokenV::LE,
            Token::GT => TokenV::GT,
            Token::GE => TokenV::GE,
            Token::RANGE => TokenV::RANGE,
            Token::RANGEI => TokenV::RANGEI,
            Token::ADD => TokenV::ADD,
            Token::SUB => TokenV::SUB,
            Token::MUL => TokenV::MUL,
            Token::DIV => TokenV::DIV,
            Token::MOD => TokenV::MOD,
            Token::POW => TokenV::POW,
            Token::DIE => TokenV::DIE,
            Token::LPAREN => TokenV::LPAREN,
            Token::RPAREN => TokenV::RPAREN,
            Token::LBRACKET => TokenV::LBRACKET,
            Token::RBRACKET => TokenV::RBRACKET,
            Token::LBRACE => TokenV::LBRACE,
            Token::RBRACE => TokenV::RBRACE,
            Token::NULL => TokenV::NULL,
            Token::IF => TokenV::IF,
            Token::ELSE => TokenV::ELSE,
            Token::MATCH => TokenV::MATCH,
            Token::FOR => TokenV::FOR,
            Token::IN => TokenV::IN,
            Token::WHILE => TokenV::WHILE,
            Token::LOOP => TokenV::LOOP,
            Token::ARROW => TokenV::ARROW,
            Token::Boolean(b) => TokenV::Boolean(*b),
            Token::Integer(n) => TokenV::Integer(*n),
            Token::Id(s) => TokenV::Id(s@),
            Token::String(s) => TokenV::String(s@),
        }
    }
}

impl PartialEqSpecImpl for Token {
    open spec fn obeys_eq_spec() -> bool {
        true
    }

    open spec fn eq_spec(&self, other: &Token) -> bool {
        self@ == other@
    }
}

impl PartialEq for Token {
    /// Two tokens are equal when their tags and their payloads are.
    fn eq(&self, other: &Token) -> (b: bool) {
        match (self, other) {
            (Token::DELIM, Token::DELIM) => true,
            (Token::COMMA, Token::COMMA) => true,
            (Token::COLON, Token::COLON) => true,
            (Token::DOT, Token::DOT) => true,
            (Token::SPREAD, Token::SPREAD) => true,
            (Token::ASSIGNE, Token::ASSIGNE) => true,
            (Token::OR, Token::OR) => true,
            (Token::AND, Token::AND) => true,
            (Token::NOT, Token::NOT) => true,
            (Token::EQ, Token::EQ) => true,
            (Token::NE, Token::NE) => true,
            (Token::LT, Token::LT) => true,
            (Token::LE, Token::LE) => true,
            (Token::GT, Token::GT) => true,
            (Token::GE, Token::GE) => true,
            (Token::RANGE, Token::RANGE) => true,
            (Token::RANGEI, Token::RANGEI) => true,
            (Token::ADD, Token::ADD) => true,
            (Token::SUB, Token::SUB) => true,
            (Token::MUL, Token::MUL) => true,
            (Token::DIV, Token::DIV) => true,
            (Token::MOD, Token::MOD) => true,
            (Token::POW, Token::POW) => true,
            (Token::DIE, Token::DIE) => true,
            (Token::LPAREN, Token::LPAREN) => true,
            (Token::RPAREN, Token::RPAREN) => true,
            (Token::LBRACKET, Token::LBRACKET) => true,
            (Token::RBRACKET, Token::RBRACKET) => true,
            (Token::LBRACE, Token::LBRACE) => true,
            (Token::RBRACE, Token::RBRACE) => true,
            (Token::NULL, Token::NULL) => true,
            (Token::IF, Token::IF) => true,
            (Token::ELSE, Token::ELSE) => true,
            (Token::MATCH, Token::MATCH) => true,
            (Token::FOR, Token::FOR) => true,
            (Token::IN, Token::IN) => true,
            (Token::WHILE, Token::WHILE) => true,
            (Token::LOOP, Token::LOOP) => true,
            (Token::ARROW, Token::ARROW) => true,
            (Token::Boolean(a), Token::Boolean(b)) => *a == *b,
            (Token::Integer(a), Token::Integer(b)) => *a == *b,
            (Token::Id(a), Token::Id(b)) => *a == *b,
            (Token::String(a), Token::String(b)) => *a == *b,
            _ => false,
        }
    }
}

/// The model of a tag without a payload is the tag of the same name.
pub proof fn lemma_tag_models()
    ensures
        (Token::DELIM)@ == TokenV::DELIM,
        (Token::COMMA)@ == TokenV::COMMA,
        (Token::COLON)@ == TokenV::COLON,
        (Token::DOT)@ == TokenV::DOT,
        (Token::SPREAD)@ == TokenV::SPREAD,
        (Token::ASSIGNE)@ == TokenV::ASSIGNE,
        (Token::OR)@ == TokenV::OR,
        (Token::AND)@ == TokenV::AND,
        (Token::NOT)@ == TokenV::NOT,
        (Token::EQ)@ == TokenV::EQ,
        (Token::NE)@ == TokenV::NE,
        (Token::LT)@ == TokenV::LT,
        (Token::LE)@ == TokenV::LE,
        (Token::GT)@ == TokenV::GT,
        (Token::GE)@ == TokenV::GE,
        (Token::RANGE)@ == TokenV::RANGE,
        (Token::RANGEI)@ == TokenV::RANGEI,
        (Token::ADD)@ == TokenV::ADD,
        (Token::SUB)@ == TokenV::SUB,
        (Token::MUL)@ == TokenV::MUL,
        (Token::DIV)@ == TokenV::DIV,
        (Token::MOD)@ == TokenV::MOD,
        (Token::POW)@ == TokenV::POW,
        (Token::DIE)@ == TokenV::DIE,
        (Token::LPAREN)@ == TokenV::LPAREN,
        (Token::RPAREN)@ == TokenV::RPAREN,
        (Token::LBRACKET)@ == TokenV::LBRACKET,
        (Token::RBRACKET)@ == TokenV::RBRACKET,
        (Token::LBRACE)@ == TokenV::LBRACE,
        (Token::RBRACE)@ == TokenV::RBRACE,
        (Token::NULL)@ == TokenV::NULL,
        (Token::IF)@ == TokenV::IF,
        (Token::ELSE)@ == TokenV::ELSE,
        (Token::MATCH)@ == TokenV::MATCH,
        (Token::FOR)@ == TokenV::FOR,
        (Token::IN)@ == TokenV::IN,
        (Token::WHILE)@ == TokenV::WHILE,
        (Token::LOOP)@ == TokenV::LOOP,
        (Token::ARROW)@ == TokenV::ARROW,
{
}

/// A token and its model carry the same tag, and the model's payload is
/// the model of the token's payload.
pub proof fn lemma_token_model(t: Token)
    ensures
        t@ == TokenV::DELIM <==> t == Token::DELIM,
        t@ == TokenV::COMMA <==> t == Token::COMMA,
        t@ == TokenV::COLON <==> t == Token::COLON,
        t@ == TokenV::DOT <==> t == Token::DOT,
        t@ == TokenV::SPREAD <==> t == Token::SPREAD,
        t@ == TokenV::ASSIGNE <==> t == Token::ASSIGNE,
        t@ == TokenV::OR <==> t == Token::OR,
        t@ == TokenV::AND <==> t == Token::AND,
        t@ == TokenV::NOT <==> t == Token::NOT,
        t@ == TokenV::EQ <==> t == Token::EQ,
        t@ == TokenV::NE <==> t == Token::NE,
        t@ == TokenV::LT <==> t == Token::LT,
        t@ == TokenV::LE <==> t == Token::LE,
        t@ == TokenV::GT <==> t == Token::GT,
        t@ == TokenV::GE <==> t == Token::GE,
        t@ == TokenV::RANGE <==> t == Token::RANGE,
        t@ == TokenV::RANGEI <==> t == Token::RANGEI,
        t@ == TokenV::ADD <==> t == Token::ADD,
        t@ == TokenV::SUB <==> t == Token::SUB,
        t@ == TokenV::MUL <==> t == Token::MUL,
        t@ == TokenV::DIV <==> t == Token::DIV,
        t@ == TokenV::MOD <==> t == Token::MOD,
        t@ == TokenV::POW <==> t == Token::POW,
        t@ == TokenV::DIE <==> t == Token::DIE,
        t@ == TokenV::LPAREN <==> t == Token::LPAREN,
        t@ == TokenV::RPAREN <==> t == Token::RPAREN,
        t@ == TokenV::LBRACKET <==> t == Token::LBRACKET,
        t@ == TokenV::RBRACKET <==> t == Token::RBRACKET,
        t@ == TokenV::LBRACE <==> t == Token::LBRACE,
        t@ == TokenV::RBRACE <==> t == Token::RBRACE,
        t@ == TokenV::NULL <==> t == Token::NULL,
        t@ == TokenV::IF <==> t == Token::IF,
        t@ == TokenV::ELSE <==> t == Token::ELSE,
        t@ == TokenV::MATCH <==> t == Token::MATCH,
        t@ == TokenV::FOR <==> t == Token::FOR,
        t@ == TokenV::IN <==> t == Token::IN,
        t@ == TokenV::WHILE <==> t == Token::WHILE,
        t@ == TokenV::LOOP <==> t == Token::LOOP,
        t@ == TokenV::ARROW <==> t == Token::ARROW,
        t@ is Boolean <==> t is Boolean,
        t@ is Integer <==> t is Integer,
        t@ is Id <==> t is Id,
        t@ is String <==> t is String,
        t is Boolean ==> t@ == TokenV::Boolean(t->Boolean_0),
        t is Integer ==> t@ == TokenV::Integer(t->Integer_0),
        t is Id ==> t@ == TokenV::Id(t->Id_0@),
        t is String ==> t@ == TokenV::String(t->String_0@),
{
}

} // verus!
