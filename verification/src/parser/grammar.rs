//! The grammar of the language as specifications: what parsing the tokens of a text gives.
//!
//! A parse state is the current token and the index where the previously consumed token
//! ended; tokens are read on demand with `lex_outcome`, as the parser asks the lexer.
//! Character indexes are turned into byte offsets with `byte_offset` where nodes are built.
use vstd::prelude::*;
use crate::ast::compilation_unit::CompilationUnitNode;
use crate::ast::expression::{expr_node_view, SpecExpr, SpecExprNode};
use crate::ast::fun_definition::FunDefinitionNode;
use crate::ast::identifier::IdentifierNode;
use crate::ast::statement::{statement_expression, StatementNode};
use crate::base::error::FelicoError;
use crate::lexer::lexer::{lemma_lex_bounds, lex_outcome, LexOutcome};
use crate::lexer::token::{token_display_text, token_kind_name, TokenKind};
use crate::parser::string_literal::{literal_content, unescape};
use crate::text::byte_offset;

verus! {

/// A token as the grammar sees it: its kind, and the indexes of its first character and
/// of the character after it.
pub struct SpecTok {
    pub kind: TokenKind,
    pub start: int,
    pub end: int,
}

/// Where parsing stands: the current token, and the index where the previously consumed
/// token ended.
pub struct ParseState {
    pub tok: SpecTok,
    pub last: int,
}

/// A parse error: a message alone, or a message with a label on the character range
/// `start..end` of the token it is about.
pub enum ParseError {
    Plain(Seq<char>),
    Labeled(Seq<char>, int, int, Seq<char>),
}

/// An identifier node: its byte range and its name.
pub struct SpecIdent {
    pub start: int,
    pub end: int,
    pub name: Seq<char>,
}

/// A statement node: its byte range and its expression.
pub struct SpecStmtNode {
    pub start: int,
    pub end: int,
    pub expr: SpecExprNode,
}

/// A function definition node: its byte range, its name and its statements.
pub struct SpecFunNode {
    pub start: int,
    pub end: int,
    pub name: SpecIdent,
    pub statements: Seq<SpecStmtNode>,
}

/// A compilation unit node: its byte range and its function definitions.
pub struct SpecUnitNode {
    pub start: int,
    pub end: int,
    pub funs: Seq<SpecFunNode>,
}

/// The byte offset of the character index `i`.
pub open spec fn offset(chars: Seq<char>, i: int) -> int {
    byte_offset(chars, i) as int
}

/// The token read from index `p`, or the lexer's error.
pub open spec fn lex_token(chars: Seq<char>, p: int) -> Result<SpecTok, ParseError> {
    match lex_outcome(chars, p) {
        LexOutcome::Token(kind, start, end) => Ok(SpecTok { kind, start, end }),
        LexOutcome::Unterminated => Err(ParseError::Plain("Unterminated string"@)),
        LexOutcome::Unexpected(c) => Err(ParseError::Plain("Unexpected character: "@ + seq![c])),
    }
}

/// A state that reading tokens from the start of a text can reach: the current token
/// lies within the text, only the end-of-file token is empty and it stands at the end,
/// and a string token is quoted.
pub open spec fn state_ok(chars: Seq<char>, s: ParseState) -> bool {
    &&& 0 <= s.tok.start <= s.tok.end <= chars.len()
    &&& (s.tok.kind == TokenKind::EOF <==> s.tok.start == chars.len())
    &&& (s.tok.kind != TokenKind::EOF ==> s.tok.start < s.tok.end)
    &&& (s.tok.kind == TokenKind::String ==> s.tok.end - s.tok.start >= 2 && chars[s.tok.start]
        == '"' && chars[s.tok.end - 1] == '"')
    &&& 0 <= s.last <= chars.len()
}

/// The state where parsing starts, the lexer standing at index `p`.
pub open spec fn initial_state(chars: Seq<char>, p: int) -> Result<ParseState, ParseError> {
    match lex_token(chars, p) {
        Ok(tok) => Ok(ParseState { tok, last: 0 }),
        Err(e) => Err(e),
    }
}

/// Moving to the next token: the current one becomes the last consumed.
pub open spec fn advance_state(chars: Seq<char>, s: ParseState) -> Result<ParseState, ParseError> {
    match lex_token(chars, s.tok.end) {
        Ok(tok) => Ok(ParseState { tok, last: s.tok.end }),
        Err(e) => Err(e),
    }
}

/// The text of a token.
pub open spec fn lexeme(chars: Seq<char>, t: SpecTok) -> Seq<char> {
    chars.subrange(t.start, t.end)
}

/// The error about an unexpected current token, when `kind` was expected.
pub open spec fn expected_error(chars: Seq<char>, s: ParseState, kind: TokenKind) -> ParseError {
    ParseError::Labeled(
        "Unexpected token: "@ + token_display_text(s.tok.kind, lexeme(chars, s.tok))
            + ", expected "@ + token_kind_name(kind),
        s.tok.start,
        s.tok.end,
        "expected "@ + token_kind_name(kind) + " here"@,
    )
}

/// Consuming a token of `kind`: the current token and the state after it, or an error
/// if the current token is of another kind.
pub open spec fn consume_token(chars: Seq<char>, s: ParseState, kind: TokenKind) -> Result<
    (SpecTok, ParseState),
    ParseError,
> {
    if s.tok.kind != kind {
        Err(expected_error(chars, s, kind))
    } else {
        match advance_state(chars, s) {
            Ok(s1) => Ok((s.tok, s1)),
            Err(e) => Err(e),
        }
    }
}

/// An identifier: one identifier token.
pub open spec fn grammar_identifier(chars: Seq<char>, s: ParseState) -> Result<
    (SpecIdent, ParseState),
    ParseError,
> {
    match consume_token(chars, s, TokenKind::Identifier) {
        Ok((t, s1)) => Ok(
            (
                SpecIdent {
                    start: offset(chars, s.tok.start),
                    end: offset(chars, s1.last),
                    name: lexeme(chars, t),
                },
                s1,
            ),
        ),
        Err(e) => Err(e),
    }
}

/// A primary expression: a variable use or a string literal.
pub open spec fn grammar_primary(chars: Seq<char>, s: ParseState) -> Result<
    (SpecExprNode, ParseState),
    ParseError,
> {
    if s.tok.kind == TokenKind::Identifier {
        match grammar_identifier(chars, s) {
            Ok((id, s1)) => Ok(
                (
                    SpecExprNode {
                        start: offset(chars, s.tok.start),
                        end: offset(chars, s1.last),
                        expr: SpecExpr::VarUse(id.start, id.end, id.name),
                    },
                    s1,
                ),
            ),
            Err(e) => Err(e),
        }
    } else if s.tok.kind == TokenKind::String {
        match consume_token(chars, s, TokenKind::String) {
            Ok((t, s1)) => match unescape(literal_content(lexeme(chars, t))) {
                Ok(text) => Ok(
                    (
                        SpecExprNode {
                            start: offset(chars, s.tok.start),
                            end: offset(chars, s1.last),
                            expr: SpecExpr::Literal(text),
                        },
                        s1,
                    ),
                ),
                Err(m) => Err(ParseError::Plain(m)),
            },
            Err(e) => Err(e),
        }
    } else {
        Err(
            ParseError::Labeled(
                "Unexpected token: "@ + token_display_text(s.tok.kind, lexeme(chars, s.tok)),
                s.tok.start,
                s.tok.end,
                "expected primary expression here"@,
            ),
        )
    }
}

/// An expression: a primary expression, possibly called with one argument in
/// parentheses.
pub open spec fn grammar_call(chars: Seq<char>, s: ParseState) -> Result<
    (SpecExprNode, ParseState),
    ParseError,
>
    decreases chars.len() - s.tok.start,
    when state_ok(chars, s)
{
    match grammar_primary(chars, s) {
        Err(e) => Err(e),
        Ok((callee, s1)) => if s1.tok.kind != TokenKind::ParenOpen {
            Ok((callee, s1))
        } else {
            match consume_token(chars, s1, TokenKind::ParenOpen) {
                Err(e) => Err(e),
                Ok((_, s2)) => {
                    proof {
                        lemma_primary_progress(chars, s);
                        lemma_consume(chars, s1, TokenKind::ParenOpen);
                    }
                    match grammar_call(chars, s2) {
                        Err(e) => Err(e),
                        Ok((argument, s3)) => match consume_token(
                            chars,
                            s3,
                            TokenKind::ParenClose,
                        ) {
                            Err(e) => Err(e),
                            Ok((_, s4)) => Ok(
                                (
                                    SpecExprNode {
                                        start: offset(chars, s.tok.start),
                                        end: offset(chars, s4.last),
                                        expr: SpecExpr::Call(Box::new(callee), seq![argument]),
                                    },
                                    s4,
                                ),
                            ),
                        },
                    }
                },
            }
        },
    }
}

/// A statement: an expression, then a semicolon, which the statement's range leaves out.
pub open spec fn grammar_statement(chars: Seq<char>, s: ParseState) -> Result<
    (SpecStmtNode, ParseState),
    ParseError,
> {
    match grammar_call(chars, s) {
        Err(e) => Err(e),
        Ok((e, s1)) => match consume_token(chars, s1, TokenKind::Semicolon) {
            Err(x) => Err(x),
            Ok((_, s2)) => Ok(
                (SpecStmtNode { start: offset(chars, s.tok.start), end: offset(chars, s1.last), expr: e }, s2),
            ),
        },
    }
}

/// Statements up to (not including) a token of kind `end`.
pub open spec fn grammar_statements(chars: Seq<char>, s: ParseState, end: TokenKind) -> Result<
    (Seq<SpecStmtNode>, ParseState),
    ParseError,
>
    decreases chars.len() - s.tok.start,
    when state_ok(chars, s)
{
    if s.tok.kind == end {
        Ok((Seq::empty(), s))
    } else {
        match grammar_statement(chars, s) {
            Err(e) => Err(e),
            Ok((st, s1)) => {
                proof {
                    lemma_statement_progress(chars, s);
                }
                match grammar_statements(chars, s1, end) {
                    Err(e) => Err(e),
                    Ok((rest, s2)) => Ok((seq![st] + rest, s2)),
                }
            },
        }
    }
}

/// A function definition: `fun`, a name, `()`, and statements in braces.
pub open spec fn grammar_function(chars: Seq<char>, s: ParseState) -> Result<
    (SpecFunNode, ParseState),
    ParseError,
> {
    match consume_token(chars, s, TokenKind::Fun) {
        Err(e) => Err(e),
        Ok((_, s1)) => match grammar_identifier(chars, s1) {
            Err(e) => Err(e),
            Ok((name, s2)) => match consume_token(chars, s2, TokenKind::ParenOpen) {
                Err(e) => Err(e),
                Ok((_, s3)) => match consume_token(chars, s3, TokenKind::ParenClose) {
                    Err(e) => Err(e),
                    Ok((_, s4)) => match consume_token(chars, s4, TokenKind::BraceOpen) {
                        Err(e) => Err(e),
                        Ok((_, s5)) => match grammar_statements(chars, s5, TokenKind::BraceClose) {
                            Err(e) => Err(e),
                            Ok((statements, s6)) => match consume_token(
                                chars,
                                s6,
                                TokenKind::BraceClose,
                            ) {
                                Err(e) => Err(e),
                                Ok((_, s7)) => Ok(
                                    (
                                        SpecFunNode {
                                            start: offset(chars, s.tok.start),
                                            end: offset(chars, s7.last),
                                            name,
                                            statements,
                                        },
                                        s7,
                                    ),
                                ),
                            },
                        },
                    },
                },
            },
        },
    }
}

/// Function definitions up to the end of the text; after each definition one more token
/// is skipped, whatever it is.
pub open spec fn grammar_functions(chars: Seq<char>, s: ParseState) -> Result<
    (Seq<SpecFunNode>, ParseState),
    ParseError,
>
    decreases chars.len() - s.tok.start,
    when state_ok(chars, s)
{
    if s.tok.kind == TokenKind::EOF {
        Ok((Seq::empty(), s))
    } else if s.tok.kind == TokenKind::Fun {
        match grammar_function(chars, s) {
            Err(e) => Err(e),
            Ok((f, s1)) => match advance_state(chars, s1) {
                Err(e) => Err(e),
                Ok(s2) => {
                    proof {
                        lemma_function_progress(chars, s);
                        lemma_advance(chars, s1);
                    }
                    match grammar_functions(chars, s2) {
                        Err(e) => Err(e),
                        Ok((rest, s3)) => Ok((seq![f] + rest, s3)),
                    }
                },
            },
        }
    } else {
        Err(ParseError::Plain("Unexpected token: "@ + token_kind_name(s.tok.kind)))
    }
}

/// A compilation unit: function definitions up to the end of the text.
pub open spec fn grammar_unit(chars: Seq<char>, s: ParseState) -> Result<
    (SpecUnitNode, ParseState),
    ParseError,
> {
    match grammar_functions(chars, s) {
        Err(e) => Err(e),
        Ok((funs, s1)) => Ok(
            (
                SpecUnitNode {
                    start: offset(chars, s.tok.start),
                    end: offset(chars, s1.last),
                    funs,
                },
                s1,
            ),
        ),
    }
}

/// A script: statements up to the end of the text, which make the body of one function
/// named `script`, the only function of the unit. The name's range ends where the last
/// consumed token before the script ended.
pub open spec fn grammar_script(chars: Seq<char>, s: ParseState) -> Result<
    (SpecUnitNode, ParseState),
    ParseError,
> {
    let start = offset(chars, s.tok.start);
    let name = SpecIdent { start, end: offset(chars, s.last), name: "script"@ };
    match grammar_statements(chars, s, TokenKind::EOF) {
        Err(e) => Err(e),
        Ok((statements, s1)) => {
            let end = offset(chars, s1.last);
            Ok(
                (
                    SpecUnitNode {
                        start,
                        end,
                        funs: seq![SpecFunNode { start, end, name, statements }],
                    },
                    s1,
                ),
            )
        },
    }
}

/// The view of an identifier node.
pub open spec fn ident_view(n: IdentifierNode) -> SpecIdent {
    SpecIdent { start: n.location.start as int, end: n.location.end as int, name: n.node.name@ }
}

/// The view of a statement node.
pub open spec fn stmt_node_view(n: StatementNode) -> SpecStmtNode {
    SpecStmtNode {
        start: n.location.start as int,
        end: n.location.end as int,
        expr: expr_node_view(statement_expression(n.node)),
    }
}

/// The views of a list of statement nodes.
pub open spec fn stmt_nodes_view(s: Seq<StatementNode>) -> Seq<SpecStmtNode> {
    s.map_values(|n: StatementNode| stmt_node_view(n))
}

/// The view of a function definition node.
pub open spec fn fun_node_view(n: FunDefinitionNode) -> SpecFunNode {
    SpecFunNode {
        start: n.location.start as int,
        end: n.location.end as int,
        name: ident_view(n.node.name),
        statements: stmt_nodes_view(n.node.statements@),
    }
}

/// The views of a list of function definition nodes.
pub open spec fn fun_nodes_view(s: Seq<FunDefinitionNode>) -> Seq<SpecFunNode> {
    s.map_values(|n: FunDefinitionNode| fun_node_view(n))
}

/// The view of a compilation unit node.
pub open spec fn unit_node_view(n: CompilationUnitNode) -> SpecUnitNode {
    SpecUnitNode {
        start: n.location.start as int,
        end: n.location.end as int,
        funs: fun_nodes_view(n.node.fun_definitions@),
    }
}

/// `e` is the error `x`, its label's range turned into bytes and its file named `path`.
pub open spec fn error_matches(e: FelicoError, x: ParseError, chars: Seq<char>, path: Seq<char>) -> bool {
    match x {
        ParseError::Plain(m) => e.message@ == m && e.label is None,
        ParseError::Labeled(m, start, end, text) => e.message@ == m && (e.label matches Some(l)
            && l.file_path@ == path && l.start == offset(chars, start) && l.end == offset(
            chars,
            end,
        ) && l.text@ == text),
    }
}

/// Reading a token from a reachable state gives a reachable state, at or after the end
/// of the current token.
pub proof fn lemma_advance(chars: Seq<char>, s: ParseState)
    requires
        state_ok(chars, s),
    ensures
        advance_state(chars, s) matches Ok(s1) ==> state_ok(chars, s1) && s1.tok.start
            >= s.tok.end && s1.last == s.tok.end,
{
    lemma_lex_bounds(chars, s.tok.end);
}

/// The state where parsing starts is reachable.
pub proof fn lemma_initial_state(chars: Seq<char>, p: int)
    requires
        0 <= p <= chars.len(),
    ensures
        initial_state(chars, p) matches Ok(s) ==> state_ok(chars, s),
{
    lemma_lex_bounds(chars, p);
}

/// Consuming a token gives it back and moves past it.
pub proof fn lemma_consume(chars: Seq<char>, s: ParseState, kind: TokenKind)
    requires
        state_ok(chars, s),
    ensures
        consume_token(chars, s, kind) matches Ok((t, s1)) ==> t == s.tok && t.kind == kind
            && state_ok(chars, s1) && s1.tok.start >= s.tok.end && s1.last == s.tok.end,
{
    lemma_advance(chars, s);
}

/// A primary expression consumes a token.
pub proof fn lemma_primary_progress(chars: Seq<char>, s: ParseState)
    requires
        state_ok(chars, s),
    ensures
        grammar_primary(chars, s) matches Ok((_, s1)) ==> state_ok(chars, s1) && s1.tok.start
            > s.tok.start,
{
    lemma_consume(chars, s, TokenKind::Identifier);
    lemma_consume(chars, s, TokenKind::String);
}

/// An expression consumes at least one token.
pub proof fn lemma_call_progress(chars: Seq<char>, s: ParseState)
    requires
        state_ok(chars, s),
    ensures
        grammar_call(chars, s) matches Ok((_, s1)) ==> state_ok(chars, s1) && s1.tok.start
            > s.tok.start,
    decreases chars.len() - s.tok.start,
{
    lemma_primary_progress(chars, s);
    if let Ok((_, s1)) = grammar_primary(chars, s) {
        if s1.tok.kind == TokenKind::ParenOpen {
            lemma_consume(chars, s1, TokenKind::ParenOpen);
            if let Ok((_, s2)) = consume_token(chars, s1, TokenKind::ParenOpen) {
                lemma_call_progress(chars, s2);
                if let Ok((_, s3)) = grammar_call(chars, s2) {
                    lemma_consume(chars, s3, TokenKind::ParenClose);
                }
            }
        }
    }
}

/// A statement consumes at least one token.
pub proof fn lemma_statement_progress(chars: Seq<char>, s: ParseState)
    requires
        state_ok(chars, s),
    ensures
        grammar_statement(chars, s) matches Ok((_, s1)) ==> state_ok(chars, s1) && s1.tok.start
            > s.tok.start,
{
    lemma_call_progress(chars, s);
    if let Ok((_, s1)) = grammar_call(chars, s) {
        lemma_consume(chars, s1, TokenKind::Semicolon);
    }
}

/// Statements leave a reachable state, at or after where they started.
pub proof fn lemma_statements_progress(chars: Seq<char>, s: ParseState, end: TokenKind)
    requires
        state_ok(chars, s),
    ensures
        grammar_statements(chars, s, end) matches Ok((_, s1)) ==> state_ok(chars, s1)
            && s1.tok.start >= s.tok.start && s1.tok.kind == end,
    decreases chars.len() - s.tok.start,
{
    if s.tok.kind != end {
        lemma_statement_progress(chars, s);
        if let Ok((_, s1)) = grammar_statement(chars, s) {
            lemma_statements_progress(chars, s1, end);
        }
    }
}

/// A function definition consumes at least one token.
pub proof fn lemma_function_progress(chars: Seq<char>, s: ParseState)
    requires
        state_ok(chars, s),
    ensures
        grammar_function(chars, s) matches Ok((_, s1)) ==> state_ok(chars, s1) && s1.tok.start
            > s.tok.start,
{
    lemma_consume(chars, s, TokenKind::Fun);
    if let Ok((_, s1)) = consume_token(chars, s, TokenKind::Fun) {
        lemma_consume(chars, s1, TokenKind::Identifier);
        if let Ok((_, s2)) = grammar_identifier(chars, s1) {
            lemma_consume(chars, s2, TokenKind::ParenOpen);
            if let Ok((_, s3)) = consume_token(chars, s2, TokenKind::ParenOpen) {
                lemma_consume(chars, s3, TokenKind::ParenClose);
                if let Ok((_, s4)) = consume_token(chars, s3, TokenKind::ParenClose) {
                    lemma_consume(chars, s4, TokenKind::BraceOpen);
                    if let Ok((_, s5)) = consume_token(chars, s4, TokenKind::BraceOpen) {
                        lemma_statements_progress(chars, s5, TokenKind::BraceClose);
                        if let Ok((_, s6)) = grammar_statements(chars, s5, TokenKind::BraceClose) {
                            lemma_consume(chars, s6, TokenKind::BraceClose);
                        }
                    }
                }
            }
        }
    }
}

/// Function definitions leave a reachable state.
pub proof fn lemma_functions_progress(chars: Seq<char>, s: ParseState)
    requires
        state_ok(chars, s),
    ensures
        grammar_functions(chars, s) matches Ok((_, s1)) ==> state_ok(chars, s1),
    decreases chars.len() - s.tok.start,
{
    if s.tok.kind == TokenKind::Fun {
        lemma_function_progress(chars, s);
        if let Ok((_, s1)) = grammar_function(chars, s) {
            lemma_advance(chars, s1);
            if let Ok(s2) = advance_state(chars, s1) {
                lemma_functions_progress(chars, s2);
            }
        }
    }
}

} // verus!
