//! The lexer: turns the text of a source file into tokens, one at a time.
use vstd::prelude::*;
use vstd::utf8::encode_utf8;
use crate::base::error::{FelicoError, FelicoResult};
use crate::base::file_location::FileLocation;
use crate::base::source_file::SourceFile;
use crate::lexer::token::{Token, TokenKind};
use crate::text::{
    byte_offset, char_is_alphanumeric, is_ascii_alphanumeric, char_is_whitespace, char_len_utf8, is_alphanumeric,
    is_whitespace, lemma_byte_offset_step, push_char, push_str, str_chars,
};

verus! {

/// The character that stands for the end of the input.
pub const EOF: char = '\u{2404}';

/// The lexer over one source file.
pub struct Lexer<'source> {
    start_position: usize,
    current_position: usize,
    chars: Vec<char>,
    next_index: usize,
    start_index: usize,
    current_char: char,
    next_char: char,
    source_file: &'source SourceFile,
    at_end: bool,
}

/// The index of the first end marker in `s`, or its length when it holds none.
pub open spec fn marker_index(s: Seq<char>) -> int
    decreases s.len(),
{
    if s.len() == 0 || s[0] == EOF {
        0
    } else {
        1 + marker_index(s.skip(1))
    }
}

/// The text before the first end marker (all of it when it holds none): what the lexer
/// reads.
pub open spec fn text_before_marker(s: Seq<char>) -> Seq<char> {
    s.take(marker_index(s))
}

/// The first end marker is at `k` when none comes before and one stands there (or the
/// text ends there).
pub proof fn lemma_marker_index(s: Seq<char>, k: int)
    requires
        0 <= k <= s.len(),
        forall|j: int| 0 <= j < k ==> s[j] != EOF,
        k == s.len() || s[k] == EOF,
    ensures
        marker_index(s) == k,
    decreases k,
{
    if k > 0 {
        lemma_marker_index(s.skip(1), k - 1);
    }
}

/// The character at index `i` of the input, or the end marker past its end.
pub open spec fn stream_char(chars: Seq<char>, i: int) -> char {
    if 0 <= i < chars.len() { chars[i] } else { EOF }
}

/// The first index at or after `p` whose character is not white space.
pub open spec fn skip_whitespace(chars: Seq<char>, p: int) -> int
    decreases chars.len() - p,
{
    if p < chars.len() && is_whitespace(chars[p]) {
        skip_whitespace(chars, p + 1)
    } else {
        p
    }
}

/// The index of the first `"` at or after `r`, or the end of the input.
pub open spec fn string_end(chars: Seq<char>, r: int) -> int
    decreases chars.len() - r,
{
    if r < chars.len() && chars[r] != '"' {
        string_end(chars, r + 1)
    } else {
        r
    }
}

/// Characters that continue an identifier: `_` and the alphanumeric characters
/// (`char::is_alphanumeric`, which among ASCII characters holds of letters and digits).
pub open spec fn is_identifier_char(c: char) -> bool {
    (if (c as u32) < 128 { is_ascii_alphanumeric(c) } else { is_alphanumeric(c) }) || c == '_'
}

/// Characters that start an identifier.
pub open spec fn is_identifier_start(c: char) -> bool {
    ('a' <= c && c <= 'z') || ('A' <= c && c <= 'Z') || c == '_'
}

/// The index of the last character of an identifier whose second character is
/// at `r`: the identifier runs while the following character continues it.
pub open spec fn identifier_last(chars: Seq<char>, r: int) -> int
    decreases chars.len() - r,
{
    if r + 1 < chars.len() && is_identifier_char(chars[r + 1]) {
        identifier_last(chars, r + 1)
    } else {
        r
    }
}

/// The token kind of a one-character symbol.
pub open spec fn symbol_kind(c: char) -> Option<TokenKind> {
    if c == '(' { Some(TokenKind::ParenOpen) }
    else if c == ')' { Some(TokenKind::ParenClose) }
    else if c == '{' { Some(TokenKind::BraceOpen) }
    else if c == '}' { Some(TokenKind::BraceClose) }
    else if c == '[' { Some(TokenKind::BracketOpen) }
    else if c == ']' { Some(TokenKind::BracketClose) }
    else if c == ',' { Some(TokenKind::Comma) }
    else if c == ';' { Some(TokenKind::Semicolon) }
    else if c == ':' { Some(TokenKind::Colon) }
    else if c == '.' { Some(TokenKind::Dot) }
    else { None }
}

/// What reading the next token gives.
pub enum LexOutcome {
    /// A token of this kind over the characters `start..end`.
    Token(TokenKind, int, int),
    /// A string literal that runs to the end of the input.
    Unterminated,
    /// A character that starts no token.
    Unexpected(char),
}

/// The next token of `chars`, reading from index `p`: white space is skipped;
/// symbols are one character; a string runs to the next `"`; an identifier
/// starts with a letter or `_`, takes the following character whatever it is,
/// then runs while the next character is alphanumeric or `_` (`fun` is a keyword).
pub open spec fn lex_outcome(chars: Seq<char>, p: int) -> LexOutcome {
    let q = skip_whitespace(chars, p);
    let c = stream_char(chars, q);
    if q >= chars.len() {
        LexOutcome::Token(TokenKind::EOF, q, q)
    } else if symbol_kind(c) is Some {
        LexOutcome::Token(symbol_kind(c)->0, q, q + 1)
    } else if c == '"' {
        let r = string_end(chars, q + 1);
        if r >= chars.len() {
            LexOutcome::Unterminated
        } else {
            LexOutcome::Token(TokenKind::String, q, r + 1)
        }
    } else if is_identifier_start(c) {
        let last = identifier_last(chars, q + 1);
        let end = if last + 1 <= chars.len() { last + 1 } else { chars.len() as int };
        let kind = if chars.subrange(q, end) == "fun"@ {
            TokenKind::Fun
        } else {
            TokenKind::Identifier
        };
        LexOutcome::Token(kind, q, end)
    } else {
        LexOutcome::Unexpected(c)
    }
}

/// Where the lexer stands after reading from `p`.
pub open spec fn lex_next_index(chars: Seq<char>, p: int) -> int {
    match lex_outcome(chars, p) {
        LexOutcome::Token(_, _, end) => end,
        LexOutcome::Unterminated => chars.len() as int,
        LexOutcome::Unexpected(_) => skip_whitespace(chars, p) + 1,
    }
}

/// What reading a token of `chars` from index `p` gives, for a lexer over `source_file`:
/// the token of `lex_outcome`, with its text and byte range, or the error.
pub open spec fn lex_result(
    chars: Seq<char>,
    source_file: SourceFile,
    p: int,
    r: FelicoResult<Token>,
) -> bool {
    match lex_outcome(chars, p) {
        LexOutcome::Token(kind, start, end) => r matches Ok(t) && t.kind == kind && t.lexeme@
            == chars.subrange(start, end) && *t.location.source_file == source_file
            && t.location.start == byte_offset(chars, start) && t.location.end == byte_offset(
            chars,
            end,
        ),
        LexOutcome::Unterminated => r matches Err(e) && e.message@ == "Unterminated string"@
            && e.label is None,
        LexOutcome::Unexpected(c) => r matches Err(e) && e.message@ == "Unexpected character: "@
            + seq![c] && e.label is None,
    }
}

/// Skipping white space moves forward and stays within the input.
pub proof fn lemma_skip_whitespace(chars: Seq<char>, p: int)
    requires
        0 <= p <= chars.len(),
    ensures
        p <= skip_whitespace(chars, p) <= chars.len(),
    decreases chars.len() - p,
{
    if p < chars.len() && is_whitespace(chars[p]) {
        lemma_skip_whitespace(chars, p + 1);
    }
}

proof fn lemma_string_end(chars: Seq<char>, r: int)
    requires
        r <= chars.len(),
    ensures
        r <= string_end(chars, r) <= chars.len(),
        string_end(chars, r) < chars.len() ==> chars[string_end(chars, r)] == '"',
    decreases chars.len() - r,
{
    if r < chars.len() && chars[r] != '"' {
        lemma_string_end(chars, r + 1);
    }
}

proof fn lemma_identifier_last(chars: Seq<char>, r: int)
    ensures
        r <= identifier_last(chars, r),
    decreases chars.len() - r,
{
    if r + 1 < chars.len() && is_identifier_char(chars[r + 1]) {
        lemma_identifier_last(chars, r + 1);
    }
}

/// A token read from within the input starts at or after the reading position and
/// ends within the input; only the end-of-file token is empty, and it stands at the
/// end of the input.
pub proof fn lemma_lex_bounds(chars: Seq<char>, p: int)
    requires
        0 <= p <= chars.len(),
    ensures
        lex_outcome(chars, p) matches LexOutcome::Token(kind, start, end) ==> p <= start <= end
            <= chars.len() && (kind == TokenKind::EOF <==> start == chars.len()) && (kind
            != TokenKind::EOF ==> start < end) && (kind == TokenKind::String ==> end - start >= 2
            && chars[start] == '"' && chars[end - 1] == '"'),
{
    lemma_skip_whitespace(chars, p);
    let q = skip_whitespace(chars, p);
    if q < chars.len() {
        lemma_string_end(chars, q + 1);
        lemma_identifier_last(chars, q + 1);
    }
}


proof fn lemma_identifier_run(chars: Seq<char>, r: int)
    requires
        0 <= r,
    ensures
        forall|j: int| r < j <= identifier_last(chars, r) ==> is_identifier_char(#[trigger] chars[j]),
        identifier_last(chars, r) + 1 < chars.len() ==> !is_identifier_char(chars[identifier_last(chars, r) + 1]),
        identifier_last(chars, r) + 1 <= chars.len() || identifier_last(chars, r) == r,
    decreases chars.len() - r,
{
    if r + 1 < chars.len() && is_identifier_char(chars[r + 1]) {
        lemma_identifier_run(chars, r + 1);
    }
}

/// A token that starts with an ASCII letter, upper or lower case, or with `_` is an
/// identifier (or the keyword `fun`, exactly when its text is `fun`): it starts at that
/// character and takes the next one too; from its third character on it holds only
/// alphanumeric characters and `_`, and it stops before the next character that is
/// neither.
pub proof fn law_letters_start_identifiers(chars: Seq<char>, p: int)
    requires
        0 <= p <= chars.len(),
        skip_whitespace(chars, p) < chars.len(),
        ({
            let c = chars[skip_whitespace(chars, p)];
            ('a' <= c && c <= 'z') || ('A' <= c && c <= 'Z') || c == '_'
        }),
    ensures
        lex_outcome(chars, p) matches LexOutcome::Token(kind, start, end) && (kind
            == TokenKind::Identifier || kind == TokenKind::Fun) && start == skip_whitespace(chars, p)
            && start < end <= chars.len() && (kind == TokenKind::Fun <==> chars.subrange(start, end)
            == "fun"@) && (end >= start + 2 || end == chars.len()) && (forall|j: int|
            start + 2 <= j < end ==> is_identifier_char(#[trigger] chars[j])) && (end < chars.len()
            ==> !is_identifier_char(chars[end])),
{
    lemma_lex_bounds(chars, p);
    lemma_skip_whitespace(chars, p);
    let q = skip_whitespace(chars, p);
    let c = chars[q];
    assert(stream_char(chars, q) == c);
    assert(symbol_kind(c) is None);
    assert(c != '"');
    assert(is_identifier_start(c));
    lemma_identifier_run(chars, q + 1);
    lemma_identifier_last(chars, q + 1);
}

/// The lexer reports an unexpected character only for one that starts neither an
/// identifier nor a string: never for an ASCII letter, `_` or `"`.
pub proof fn law_unexpected_is_no_letter(chars: Seq<char>, p: int)
    requires
        lex_outcome(chars, p) matches LexOutcome::Unexpected(_),
    ensures
        ({
            let c = lex_outcome(chars, p)->Unexpected_0;
            !(('a' <= c && c <= 'z') || ('A' <= c && c <= 'Z') || c == '_' || c == '"')
        }),
{
}

impl<'source> Lexer<'source> {
    /// The characters of the input, in specifications.
    pub closed spec fn spec_chars(&self) -> Seq<char> {
        self.chars@
    }

    /// The index of the next character to read, in specifications.
    pub closed spec fn spec_next_index(&self) -> int {
        self.next_index as int
    }

    /// The source file being read, in specifications.
    pub closed spec fn spec_source_file(&self) -> SourceFile {
        *self.source_file
    }

    /// The lexer's state is consistent: it reads its source file, the next
    /// character and the byte position agree with the index, and the input holds
    /// no end marker.
    pub closed spec fn wf(&self) -> bool {
        &&& self.chars@ == text_before_marker(self.source_file.spec_content())
        &&& !self.chars@.contains(EOF)
        &&& self.next_index <= self.chars@.len()
        &&& self.next_char == stream_char(self.chars@, self.next_index as int)
        &&& self.current_position == byte_offset(self.chars@, self.next_index as int)
        &&& self.start_index <= self.next_index
        &&& !self.at_end
        &&& self.start_position == byte_offset(self.chars@, self.start_index as int)
        &&& encode_utf8(self.chars@).len() <= usize::MAX
    }

    /// A lexer at the start of `source_file`. The end marker U+2404 ends the input: the
    /// lexer reads the text before its first occurrence.
    pub fn new(source_file: &'source SourceFile) -> (l: Self)
        ensures
            l.wf(),
            l.spec_source_file() == *source_file,
            l.spec_chars() == text_before_marker(source_file.spec_content()),
            l.spec_next_index() == 0,
    {
        let content = source_file.content();
        let total = content.as_bytes().len();
        let mut chars = str_chars(content);
        let mut k: usize = 0;
        while k < chars.len() && chars[k] != EOF
            invariant
                k <= chars@.len(),
                forall|j: int| 0 <= j < k ==> chars@[j] != EOF,
            decreases chars.len() - k,
        {
            k = k + 1;
        }
        proof {
            lemma_marker_index(chars@, k as int);
            let whole = chars@;
            assert(whole =~= whole.take(k as int) + whole.skip(k as int));
            crate::text::lemma_encode_utf8_concat(whole.take(k as int), whole.skip(k as int));
        }
        chars.truncate(k);
        let next_char = if chars.len() > 0 { chars[0] } else { EOF };
        proof {
            assert(chars@ =~= text_before_marker(source_file.spec_content()));
            assert(!chars@.contains(EOF)) by {
                if chars@.contains(EOF) {
                    let j = choose|j: int| 0 <= j < chars@.len() && chars@[j] == EOF;
                    assert(chars@[j] == content@[j]);
                }
            }
            assert(chars@.take(0) =~= Seq::<char>::empty());
            assert(encode_utf8(Seq::<char>::empty()) =~= Seq::<u8>::empty());
        }
        Lexer {
            source_file,
            chars,
            next_index: 0,
            start_index: 0,
            start_position: 0,
            current_position: 0,
            at_end: false,
            current_char: EOF,
            next_char,
        }
    }

    fn advance(&mut self)
        requires
            old(self).wf(),
        ensures
            final(self).wf(),
            final(self).chars@ == old(self).chars@,
            final(self).source_file == old(self).source_file,
            final(self).start_index == old(self).start_index,
            final(self).start_position == old(self).start_position,
            final(self).current_char == stream_char(old(self).chars@, old(self).next_index as int),
            final(self).next_index == if old(self).next_index < old(self).chars@.len() {
                old(self).next_index + 1
            } else {
                old(self).next_index as int
            },
    {
        self.current_char = self.next_char;
        if self.next_index < self.chars.len() {
            proof {
                lemma_byte_offset_step(self.chars@, self.next_index as int);
            }
            let width = char_len_utf8(self.current_char);
            self.current_position = self.current_position + width;
            self.next_index = self.next_index + 1;
        }
        self.next_char = if self.next_index < self.chars.len() {
            self.chars[self.next_index]
        } else {
            EOF
        };
    }

    /// The index where the token being read started, in specifications.
    pub closed spec fn spec_start_index(&self) -> int {
        self.start_index as int
    }

    /// The token over the characters read since the token started; the next token
    /// starts where this one ends.
    pub fn create_token(&mut self, token_kind: TokenKind) -> (r: FelicoResult<Token<'source>>)
        requires
            old(self).wf(),
        ensures
            final(self).wf(),
            final(self).spec_chars() == old(self).spec_chars(),
            final(self).spec_source_file() == old(self).spec_source_file(),
            final(self).spec_next_index() == old(self).spec_next_index(),
            final(self).spec_start_index() == old(self).spec_next_index(),
            r matches Ok(t) && t.kind == token_kind && t.lexeme@ == old(self).spec_chars().subrange(
                old(self).spec_start_index(),
                old(self).spec_next_index(),
            ) && *t.location.source_file == old(self).spec_source_file() && t.location.start
                == byte_offset(old(self).spec_chars(), old(self).spec_start_index())
                && t.location.end == byte_offset(old(self).spec_chars(), old(self).spec_next_index()),
    {
        let location = FileLocation::new(self.source_file, self.start_position, self.current_position);
        let mut lexeme = String::new();
        let mut i = self.start_index;
        while i < self.next_index
            invariant
                self.start_index <= i <= self.next_index <= self.chars@.len(),
                lexeme@ == self.chars@.subrange(self.start_index as int, i as int),
            decreases self.next_index - i,
        {
            push_char(&mut lexeme, self.chars[i]);
            i = i + 1;
            assert(lexeme@ =~= self.chars@.subrange(self.start_index as int, i as int));
        }
        self.start_position = self.current_position;
        self.start_index = self.next_index;
        Ok(Token::new(token_kind, lexeme, location))
    }

    fn symbol_token_kind(c: char) -> (k: Option<TokenKind>)
        ensures
            k == symbol_kind(c),
    {
        if c == '(' { Some(TokenKind::ParenOpen) }
        else if c == ')' { Some(TokenKind::ParenClose) }
        else if c == '{' { Some(TokenKind::BraceOpen) }
        else if c == '}' { Some(TokenKind::BraceClose) }
        else if c == '[' { Some(TokenKind::BracketOpen) }
        else if c == ']' { Some(TokenKind::BracketClose) }
        else if c == ',' { Some(TokenKind::Comma) }
        else if c == ';' { Some(TokenKind::Semicolon) }
        else if c == ':' { Some(TokenKind::Colon) }
        else if c == '.' { Some(TokenKind::Dot) }
        else { None }
    }

    /// Reads the next token (see `lex_outcome`); at the end of the input every
    /// call gives an `EOF` token.
    pub fn next_token(&mut self) -> (r: FelicoResult<Token<'source>>)
        requires
            old(self).wf(),
        ensures
            final(self).wf(),
            final(self).spec_chars() == old(self).spec_chars(),
            final(self).spec_source_file() == old(self).spec_source_file(),
            final(self).spec_next_index() == lex_next_index(
                old(self).spec_chars(),
                old(self).spec_next_index(),
            ),
            lex_result(
                old(self).spec_chars(),
                old(self).spec_source_file(),
                old(self).spec_next_index(),
                r,
            ),
    {
        let ghost chars = self.chars@;
        let ghost p = self.next_index as int;
        let ghost q = skip_whitespace(chars, p);
        self.start_position = self.current_position;
        self.start_index = self.next_index;
        self.advance();
        while char_is_whitespace(self.current_char)
            invariant
                self.wf(),
                self.chars@ == chars,
                self.source_file == old(self).source_file,
                self.current_char == stream_char(chars, self.start_index as int),
                skip_whitespace(chars, self.start_index as int) == q,
                self.next_index == if self.start_index < chars.len() {
                    self.start_index + 1
                } else {
                    self.start_index as int
                },
            decreases chars.len() - self.start_index,
        {
            self.start_position = self.current_position;
            self.start_index = self.next_index;
            self.advance();
        }
        assert(self.start_index == q);
        let c = self.current_char;
        if c == EOF {
            assert(!(q < chars.len())) by {
                if q < chars.len() { assert(chars.contains(chars[q])); }
            }
            return self.create_token(TokenKind::EOF);
        }
        assert(q < chars.len());
        match Self::symbol_token_kind(c) {
            Some(kind) => { return self.create_token(kind); },
            None => {},
        }
        if c == '"' {
            let ghost mut ci: int = q;
            loop
                invariant
                    self.wf(),
                    self.chars@ == chars,
                    self.source_file == old(self).source_file,
                    self.start_index == q,
                    chars == old(self).chars@,
                    q == skip_whitespace(chars, old(self).next_index as int),
                    q <= ci < chars.len(),
                    chars[q] == '"',
                    self.next_index == ci + 1,
                    string_end(chars, q + 1) == string_end(chars, ci + 1),
                decreases chars.len() - ci,
            {
                self.advance();
                proof { ci = ci + 1; }
                if self.current_char == EOF {
                    assert(!(ci < chars.len())) by {
                        if ci < chars.len() { assert(chars.contains(chars[ci])); }
                    }
                    let mut message = String::new();
                    push_str(&mut message, "Unterminated string");
                    return Err(FelicoError::message(message));
                }
                if self.current_char == '"' {
                    return self.create_token(TokenKind::String);
                }
            }
        }
        if ('a' <= c && c <= 'z') || ('A' <= c && c <= 'Z') || c == '_' {
            self.advance();
            let ghost mut ci: int = q + 1;
            loop
                invariant
                    self.wf(),
                    self.chars@ == chars,
                    self.source_file == old(self).source_file,
                    self.start_index == q,
                    chars == old(self).chars@,
                    q == skip_whitespace(chars, old(self).next_index as int),
                    q < chars.len(),
                    is_identifier_start(chars[q]),
                    q + 1 <= ci <= chars.len(),
                    self.next_index == if ci < chars.len() { ci + 1 } else { ci },
                    identifier_last(chars, q + 1) == identifier_last(chars, ci),
                ensures
                    self.wf(),
                    self.chars@ == chars,
                    self.source_file == old(self).source_file,
                    self.start_index == q,
                    q + 1 <= ci <= chars.len(),
                    self.next_index == if ci < chars.len() { ci + 1 } else { ci },
                    identifier_last(chars, q + 1) == ci,
                decreases chars.len() - ci,
            {
                let next = self.next_char;
                let continues = char_is_alphanumeric(next) || next == '_';
                if !continues {
                    break;
                }
                assert(self.next_index < chars.len());
                self.advance();
                proof { ci = ci + 1; }
            }
            let start = self.start_index;
            let end = self.next_index;
            let is_fun = end - start == 3 && self.chars[start] == 'f' && self.chars[start + 1] == 'u'
                && self.chars[start + 2] == 'n';
            proof {
                reveal_strlit("fun");
                if is_fun {
                    assert(chars.subrange(q, end as int) =~= "fun"@);
                } else if chars.subrange(q, end as int) == "fun"@ {
                    assert(chars.subrange(q, end as int)[0] == 'f');
                    assert(chars.subrange(q, end as int)[1] == 'u');
                    assert(chars.subrange(q, end as int)[2] == 'n');
                    assert(chars.subrange(q, end as int).len() == 3);
                    assert(end - q == 3);
                    assert(chars[q] == 'f' && chars[q + 1] == 'u' && chars[q + 2] == 'n');
                    assert(false);
                }
            }
            let kind = if is_fun { TokenKind::Fun } else { TokenKind::Identifier };
            proof {
                let last = identifier_last(chars, q + 1);
                let spec_end = if last + 1 <= chars.len() { last + 1 } else { chars.len() as int };
                assert(spec_end == end);
                assert(stream_char(chars, q) == c);
                assert(symbol_kind(c) is None);
                assert(c != '"');
                assert(is_identifier_start(c));
                assert((chars.subrange(q, spec_end) == "fun"@) == is_fun);
            }
            assert(lex_outcome(chars, p) == LexOutcome::Token(kind, q, end as int));
            return self.create_token(kind);
        }
        let mut message = String::new();
        push_str(&mut message, "Unexpected character: ");
        push_char(&mut message, c);
        assert(message@ =~= "Unexpected character: "@ + seq![c]);
        assert(lex_outcome(chars, p) == LexOutcome::Unexpected(c));
        Err(FelicoError::message(message))
    }

    /// What a consistent lexer knows: it reads its source file's text, which holds no
    /// end marker and whose UTF-8 encoding fits in a `usize`, and it stands within it.
    pub proof fn lemma_wf(&self)
        requires
            self.wf(),
        ensures
            self.spec_chars() == text_before_marker(self.spec_source_file().spec_content()),
            0 <= self.spec_next_index() <= self.spec_chars().len(),
            !self.spec_chars().contains(EOF),
            encode_utf8(self.spec_chars()).len() <= usize::MAX,
    {
    }

    /// The next token, as an iterator gives it: there always is one, since at the end
    /// of the input every call gives an `EOF` token.
    pub fn next(&mut self) -> (r: Option<FelicoResult<Token<'source>>>)
        requires
            old(self).wf(),
        ensures
            final(self).wf(),
            final(self).spec_chars() == old(self).spec_chars(),
            final(self).spec_source_file() == old(self).spec_source_file(),
            final(self).spec_next_index() == lex_next_index(
                old(self).spec_chars(),
                old(self).spec_next_index(),
            ),
            r matches Some(t) && lex_result(
                old(self).spec_chars(),
                old(self).spec_source_file(),
                old(self).spec_next_index(),
                t,
            ),
    {
        if self.at_end {
            None
        } else {
            Some(self.next_token())
        }
    }
}


/// At the end of the input, reading gives an empty end-of-file token there and the
/// lexer stays where it is, so every further read gives the same token.
pub proof fn law_eof_at_end(chars: Seq<char>)
    ensures
        lex_outcome(chars, chars.len() as int) == LexOutcome::Token(
            TokenKind::EOF,
            chars.len() as int,
            chars.len() as int,
        ),
        lex_next_index(chars, chars.len() as int) == chars.len(),
{
}

} // verus!
