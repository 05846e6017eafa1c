//! Tokens of the compiler's lexer: a type, the text they were read from, and their span.
use vstd::prelude::*;
use std::rc::Rc;
use crate::compiler::infra::source_span::SourceSpan;
use crate::text::push_str;

verus! {

/// The types of tokens.
#[derive(Debug, PartialEq, Eq, Copy, Clone, Structural)]
pub enum TokenType {
    LeftParen,
    RightParen,
    LeftBrace,
    RightBrace,
    Comma,
    Dot,
    Minus,
    Plus,
    Semicolon,
    Slash,
    Star,
    Colon,
    ColonColon,
    Bang,
    BangEqual,
    Equal,
    EqualEqual,
    Greater,
    GreaterEqual,
    Less,
    LessEqual,
    Arrow,
    Identifier,
    String,
    Number,
    And,
    Or,
    Else,
    False,
    Fun,
    For,
    If,
    Return,
    True,
    Let,
    While,
    Struct,
    Trait,
    Enum,
    Impl,
    UnexpectedCharacter,
    EOF,
}

/// The name of a token type, as it is printed.
pub open spec fn token_type_name(t: TokenType) -> Seq<char> {
    match t {
        TokenType::LeftParen => "LeftParen"@,
        TokenType::RightParen => "RightParen"@,
        TokenType::LeftBrace => "LeftBrace"@,
        TokenType::RightBrace => "RightBrace"@,
        TokenType::Comma => "Comma"@,
        TokenType::Dot => "Dot"@,
        TokenType::Minus => "Minus"@,
        TokenType::Plus => "Plus"@,
        TokenType::Semicolon => "Semicolon"@,
        TokenType::Slash => "Slash"@,
        TokenType::Star => "Star"@,
        TokenType::Colon => "Colon"@,
        TokenType::ColonColon => "ColonColon"@,
        TokenType::Bang => "Bang"@,
        TokenType::BangEqual => "BangEqual"@,
        TokenType::Equal => "Equal"@,
        TokenType::EqualEqual => "EqualEqual"@,
        TokenType::Greater => "Greater"@,
        TokenType::GreaterEqual => "GreaterEqual"@,
        TokenType::Less => "Less"@,
        TokenType::LessEqual => "LessEqual"@,
        TokenType::Arrow => "Arrow"@,
        TokenType::Identifier => "Identifier"@,
        TokenType::String => "String"@,
        TokenType::Number => "Number"@,
        TokenType::And => "And"@,
        TokenType::Or => "Or"@,
        TokenType::Else => "Else"@,
        TokenType::False => "False"@,
        TokenType::Fun => "Fun"@,
        TokenType::For => "For"@,
        TokenType::If => "If"@,
        TokenType::Return => "Return"@,
        TokenType::True => "True"@,
        TokenType::Let => "Let"@,
        TokenType::While => "While"@,
        TokenType::Struct => "Struct"@,
        TokenType::Trait => "Trait"@,
        TokenType::Enum => "Enum"@,
        TokenType::Impl => "Impl"@,
        TokenType::UnexpectedCharacter => "UnexpectedCharacter"@,
        TokenType::EOF => "EOF"@,
    }
}

/// The name of a token type, as it is printed.
pub fn token_type_to_name(t: TokenType) -> (s: &'static str)
    ensures
        s@ == token_type_name(t),
{
    match t {
        TokenType::LeftParen => "LeftParen",
        TokenType::RightParen => "RightParen",
        TokenType::LeftBrace => "LeftBrace",
        TokenType::RightBrace => "RightBrace",
        TokenType::Comma => "Comma",
        TokenType::Dot => "Dot",
        TokenType::Minus => "Minus",
        TokenType::Plus => "Plus",
        TokenType::Semicolon => "Semicolon",
        TokenType::Slash => "Slash",
        TokenType::Star => "Star",
        TokenType::Colon => "Colon",
        TokenType::ColonColon => "ColonColon",
        TokenType::Bang => "Bang",
        TokenType::BangEqual => "BangEqual",
        TokenType::Equal => "Equal",
        TokenType::EqualEqual => "EqualEqual",
        TokenType::Greater => "Greater",
        TokenType::GreaterEqual => "GreaterEqual",
        TokenType::Less => "Less",
        TokenType::LessEqual => "LessEqual",
        TokenType::Arrow => "Arrow",
        TokenType::Identifier => "Identifier",
        TokenType::String => "String",
        TokenType::Number => "Number",
        TokenType::And => "And",
        TokenType::Or => "Or",
        TokenType::Else => "Else",
        TokenType::False => "False",
        TokenType::Fun => "Fun",
        TokenType::For => "For",
        TokenType::If => "If",
        TokenType::Return => "Return",
        TokenType::True => "True",
        TokenType::Let => "Let",
        TokenType::While => "While",
        TokenType::Struct => "Struct",
        TokenType::Trait => "Trait",
        TokenType::Enum => "Enum",
        TokenType::Impl => "Impl",
        TokenType::UnexpectedCharacter => "UnexpectedCharacter",
        TokenType::EOF => "EOF",
    }
}

/// Whether a token type compares two values: `>`, `>=`, `=`, `!=`, `<` and `<=`.
pub open spec fn is_comparison_type(t: TokenType) -> bool {
    t == TokenType::Greater || t == TokenType::GreaterEqual || t == TokenType::Equal || t
        == TokenType::BangEqual || t == TokenType::Less || t == TokenType::LessEqual
}

/// A token, shared by every node that refers to it.
#[derive(Clone)]
pub struct Token {
    pub inner: Rc<TokenInner>,
}

/// The type, the span and the text of a token.
pub struct TokenInner {
    pub token_type: TokenType,
    pub location: SourceSpan,
    pub value: String,
}

/// How a token is shown in messages: `End of file`, or its text in single quotes and
/// its type in parentheses.
pub open spec fn token_text(t: TokenType, lexeme: Seq<char>) -> Seq<char> {
    if t == TokenType::EOF {
        "End of file"@
    } else {
        "'"@ + lexeme + "' ("@ + token_type_name(t) + ")"@
    }
}

impl Token {
    /// The text of the token.
    pub fn lexeme(&self) -> (s: &str)
        ensures
            s@ == self.inner.value@,
    {
        self.inner.value.as_str()
    }

    /// Whether the token compares two values (see `is_comparison_type`).
    pub fn is_comparison_operator(&self) -> (b: bool)
        ensures
            b == is_comparison_type(self.inner.token_type),
    {
        match self.inner.token_type {
            TokenType::Greater | TokenType::GreaterEqual | TokenType::Equal | TokenType::BangEqual
            | TokenType::Less | TokenType::LessEqual => true,
            _ => false,
        }
    }

    /// The type of the token.
    pub fn token_type(&self) -> (t: TokenType)
        ensures
            t == self.inner.token_type,
    {
        self.inner.token_type
    }

    /// The span of the token.
    pub fn location(&self) -> (l: &SourceSpan)
        ensures
            *l == self.inner.location,
    {
        &self.inner.location
    }

    /// How the token is shown in messages (see `token_text`).
    pub fn to_display_string(&self) -> (s: String)
        ensures
            s@ == token_text(self.inner.token_type, self.inner.value@),
    {
        let mut s = String::new();
        if self.inner.token_type == TokenType::EOF {
            push_str(&mut s, "End of file");
        } else {
            push_str(&mut s, "'");
            push_str(&mut s, self.inner.value.as_str());
            push_str(&mut s, "' (");
            push_str(&mut s, token_type_to_name(self.inner.token_type));
            push_str(&mut s, ")");
        }
        assert(s@ =~= token_text(self.inner.token_type, self.inner.value@));
        s
    }
}

} // verus!
