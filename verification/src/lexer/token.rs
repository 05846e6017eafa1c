//! Tokens: a kind, the text they were read from, and where.
use vstd::prelude::*;
use crate::base::file_location::FileLocation;
use crate::text::push_str;

verus! {

/// The kinds of tokens.
#[derive(Debug, PartialEq, Eq, Copy, Clone, Structural)]
pub enum TokenKind {
    EOF,
    ParenOpen,
    ParenClose,
    BraceOpen,
    BraceClose,
    BracketOpen,
    BracketClose,
    Comma,
    Semicolon,
    Colon,
    Dot,
    String,
    Fun,
    Identifier,
}

/// A token: its kind, its text, and where it stands in its source file.
pub struct Token<'source> {
    pub kind: TokenKind,
    pub lexeme: String,
    pub location: FileLocation<'source>,
}

/// The name of a token kind, as it is printed.
pub open spec fn token_kind_name(kind: TokenKind) -> Seq<char> {
    match kind {
        TokenKind::EOF => "EOF"@,
        TokenKind::ParenOpen => "ParenOpen"@,
        TokenKind::ParenClose => "ParenClose"@,
        TokenKind::BraceOpen => "BraceOpen"@,
        TokenKind::BraceClose => "BraceClose"@,
        TokenKind::BracketOpen => "BracketOpen"@,
        TokenKind::BracketClose => "BracketClose"@,
        TokenKind::Comma => "Comma"@,
        TokenKind::Semicolon => "Semicolon"@,
        TokenKind::Colon => "Colon"@,
        TokenKind::Dot => "Dot"@,
        TokenKind::String => "String"@,
        TokenKind::Fun => "Fun"@,
        TokenKind::Identifier => "Identifier"@,
    }
}

/// A description of a token kind in words, as error messages show it.
pub open spec fn token_kind_description(kind: TokenKind) -> Seq<char> {
    match kind {
        TokenKind::EOF => "End of File"@,
        TokenKind::ParenOpen => "Open Parenthesis"@,
        TokenKind::ParenClose => "Close Parenthesis"@,
        TokenKind::BraceOpen => "Open Brace"@,
        TokenKind::BraceClose => "Close Brace"@,
        TokenKind::BracketOpen => "Open Bracket"@,
        TokenKind::BracketClose => "Close Bracket"@,
        TokenKind::Comma => "Comma"@,
        TokenKind::Semicolon => "Semicolon"@,
        TokenKind::Colon => "Colon"@,
        TokenKind::Dot => "Dot"@,
        TokenKind::String => "String"@,
        TokenKind::Fun => "Fun"@,
        TokenKind::Identifier => "Identifier"@,
    }
}

/// The name of a token kind, as it is printed.
pub fn token_kind_to_name(kind: TokenKind) -> (s: &'static str)
    ensures
        s@ == token_kind_name(kind),
{
    match kind {
        TokenKind::EOF => "EOF",
        TokenKind::ParenOpen => "ParenOpen",
        TokenKind::ParenClose => "ParenClose",
        TokenKind::BraceOpen => "BraceOpen",
        TokenKind::BraceClose => "BraceClose",
        TokenKind::BracketOpen => "BracketOpen",
        TokenKind::BracketClose => "BracketClose",
        TokenKind::Comma => "Comma",
        TokenKind::Semicolon => "Semicolon",
        TokenKind::Colon => "Colon",
        TokenKind::Dot => "Dot",
        TokenKind::String => "String",
        TokenKind::Fun => "Fun",
        TokenKind::Identifier => "Identifier",
    }
}

/// A description of a token kind in words, as error messages show it.
pub fn token_kind_to_description(kind: TokenKind) -> (s: &'static str)
    ensures
        s@ == token_kind_description(kind),
{
    match kind {
        TokenKind::EOF => "End of File",
        TokenKind::ParenOpen => "Open Parenthesis",
        TokenKind::ParenClose => "Close Parenthesis",
        TokenKind::BraceOpen => "Open Brace",
        TokenKind::BraceClose => "Close Brace",
        TokenKind::BracketOpen => "Open Bracket",
        TokenKind::BracketClose => "Close Bracket",
        TokenKind::Comma => "Comma",
        TokenKind::Semicolon => "Semicolon",
        TokenKind::Colon => "Colon",
        TokenKind::Dot => "Dot",
        TokenKind::String => "String",
        TokenKind::Fun => "Fun",
        TokenKind::Identifier => "Identifier",
    }
}

impl<'source> Token<'source> {
    /// A token from its parts.
    pub fn new(kind: TokenKind, lexeme: String, location: FileLocation<'source>) -> (t: Self)
        ensures
            t.kind == kind,
            t.lexeme@ == lexeme@,
            t.location == location,
    {
        Token { kind, lexeme, location }
    }
}

/// How a token is shown in messages: its text in quotes, then its kind in words.
pub open spec fn token_display_text(kind: TokenKind, lexeme: Seq<char>) -> Seq<char> {
    "“"@ + lexeme + "” ("@ + token_kind_description(kind) + ")"@
}

impl<'source> Token<'source> {
    /// Appends how the token is shown in messages (see `token_display_text`).
    pub fn push_display(&self, out: &mut String)
        ensures
            final(out)@ == old(out)@ + token_display_text(self.kind, self.lexeme@),
    {
        push_str(out, "“");
        push_str(out, self.lexeme.as_str());
        push_str(out, "” (");
        push_str(out, token_kind_to_description(self.kind));
        push_str(out, ")");
        assert(out@ =~= old(out)@ + token_display_text(self.kind, self.lexeme@));
    }

    /// How the token is shown in messages (see `token_display_text`).
    pub fn to_display_string(&self) -> (s: String)
        ensures
            s@ == token_display_text(self.kind, self.lexeme@),
    {
        let mut s = String::new();
        self.push_display(&mut s);
        assert(s@ =~= token_display_text(self.kind, self.lexeme@));
        s
    }
}

} // verus!
