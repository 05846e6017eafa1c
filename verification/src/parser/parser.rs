//! The recursive-descent parser over the tokens of a lexer.
use vstd::prelude::*;
use crate::ast::ast_node::AstNode;
use crate::ast::compilation_unit::{CompilationUnit, CompilationUnitNode};
use crate::ast::expression::{
    expr_node_view, lemma_expr_node_view, lemma_single_node_view, Expression, ExpressionNode,
};
use crate::ast::fun_definition::{FunDefinition, FunDefinitionNode};
use crate::ast::identifier::{Identifier, IdentifierNode};
use crate::ast::statement::{ExpressionStatement, Statement, StatementNode};
use crate::base::error::{ErrorLabel, FelicoError, FelicoResult};
use crate::base::file_location::FileLocation;
use crate::base::source_file::SourceFile;
use crate::lexer::lexer::{lemma_lex_bounds, Lexer};
use crate::lexer::token::{token_kind_to_name, Token, TokenKind};
use crate::parser::grammar::{
    advance_state, consume_token, error_matches, fun_node_view, fun_nodes_view,
    grammar_call, grammar_function, grammar_functions, grammar_identifier, grammar_primary,
    grammar_script, grammar_statement, grammar_statements, grammar_unit, ident_view,
    initial_state, lemma_advance, lemma_consume, lemma_function_progress,
    lemma_initial_state, lemma_primary_progress, lemma_statement_progress, offset,
    state_ok, stmt_node_view, stmt_nodes_view, unit_node_view, ParseError, ParseState, SpecFunNode,
    SpecStmtNode, SpecTok,
};
use crate::parser::string_literal::extract_string_from_lexeme;
use crate::text::push_str;

verus! {

/// A parser over the tokens of a lexer; nodes are placed in `source_file`.
pub struct Parser<'source> {
    source_file: &'source SourceFile,
    current_token: Token<'source>,
    last_position: usize,
    tokens: Lexer<'source>,
    state: Ghost<ParseState>,
}

/// The token `t` is the grammar's token `k` of `chars`.
pub open spec fn token_is(t: Token, k: SpecTok, chars: Seq<char>) -> bool {
    &&& t.kind == k.kind
    &&& t.lexeme@ == chars.subrange(k.start, k.end)
    &&& t.location.start == offset(chars, k.start)
    &&& t.location.end == offset(chars, k.end)
}

/// Statements `p` in front of those of `r`, or `r`'s error.
pub open spec fn prepend_statements(
    p: Seq<SpecStmtNode>,
    r: Result<(Seq<SpecStmtNode>, ParseState), ParseError>,
) -> Result<(Seq<SpecStmtNode>, ParseState), ParseError> {
    match r {
        Ok((v, s)) => Ok((p + v, s)),
        Err(e) => Err(e),
    }
}

/// Function definitions `p` in front of those of `r`, or `r`'s error.
pub open spec fn prepend_functions(
    p: Seq<SpecFunNode>,
    r: Result<(Seq<SpecFunNode>, ParseState), ParseError>,
) -> Result<(Seq<SpecFunNode>, ParseState), ParseError> {
    match r {
        Ok((v, s)) => Ok((p + v, s)),
        Err(e) => Err(e),
    }
}

proof fn lemma_prepend_statements_empty(
    r: Result<(Seq<SpecStmtNode>, ParseState), ParseError>,
)
    ensures
        prepend_statements(Seq::empty(), r) == r,
{
    if let Ok((v, s)) = r {
        assert(Seq::<SpecStmtNode>::empty() + v =~= v);
    }
}

proof fn lemma_prepend_statements_twice(
    a: Seq<SpecStmtNode>,
    b: Seq<SpecStmtNode>,
    r: Result<(Seq<SpecStmtNode>, ParseState), ParseError>,
)
    ensures
        prepend_statements(a, prepend_statements(b, r)) == prepend_statements(a + b, r),
{
    if let Ok((v, s)) = r {
        assert(a + (b + v) =~= (a + b) + v);
    }
}

proof fn lemma_prepend_functions_empty(
    r: Result<(Seq<SpecFunNode>, ParseState), ParseError>,
)
    ensures
        prepend_functions(Seq::empty(), r) == r,
{
    if let Ok((v, s)) = r {
        assert(Seq::<SpecFunNode>::empty() + v =~= v);
    }
}

proof fn lemma_prepend_functions_twice(
    a: Seq<SpecFunNode>,
    b: Seq<SpecFunNode>,
    r: Result<(Seq<SpecFunNode>, ParseState), ParseError>,
)
    ensures
        prepend_functions(a, prepend_functions(b, r)) == prepend_functions(a + b, r),
{
    if let Ok((v, s)) = r {
        assert(a + (b + v) =~= (a + b) + v);
    }
}

impl<'source> Parser<'source> {
    /// The text being parsed.
    pub closed spec fn spec_chars(&self) -> Seq<char> {
        self.tokens.spec_chars()
    }

    /// Where parsing stands.
    pub closed spec fn spec_state(&self) -> ParseState {
        self.state@
    }

    /// The path of the file that nodes and error labels refer to.
    pub closed spec fn spec_path(&self) -> Seq<char> {
        self.source_file.spec_path()
    }

    /// The parser's state is consistent: the lexer stands after the current token, which
    /// is the grammar state's token, and the last position is the byte offset where the
    /// previously consumed token ended.
    pub closed spec fn wf(&self) -> bool {
        let chars = self.tokens.spec_chars();
        &&& self.tokens.wf()
        &&& state_ok(chars, self.state@)
        &&& self.tokens.spec_next_index() == self.state@.tok.end
        &&& token_is(self.current_token, self.state@.tok, chars)
        &&& self.last_position == offset(chars, self.state@.last)
    }

    /// A parser over the tokens of `tokens`, standing on its first token; an error of the
    /// lexer on that token is returned.
    pub fn new(source_file: &'source SourceFile, tokens: Lexer<'source>) -> (r: FelicoResult<Self>)
        requires
            tokens.wf(),
        ensures
            match initial_state(tokens.spec_chars(), tokens.spec_next_index()) {
                Ok(s) => r matches Ok(p) && p.wf() && p.spec_state() == s && p.spec_chars()
                    == tokens.spec_chars() && p.spec_path() == source_file.spec_path(),
                Err(e) => r matches Err(x) && error_matches(
                    x,
                    e,
                    tokens.spec_chars(),
                    source_file.spec_path(),
                ),
            },
    {
        let mut tokens = tokens;
        let ghost chars = tokens.spec_chars();
        let ghost p = tokens.spec_next_index();
        proof {
            tokens.lemma_wf();
            lemma_initial_state(chars, p);
            lemma_lex_bounds(chars, p);
        }
        let current_token = match tokens.next() {
            Some(t) => t?,
            None => {
                let mut message = String::new();
                push_str(&mut message, "No token in source file, expected at least EOF");
                return Err(FelicoError::message(message));
            },
        };
        let ghost s = initial_state(chars, p)->Ok_0;
        proof {
            assert(chars.take(0) =~= Seq::<char>::empty());
            assert(vstd::utf8::encode_utf8(Seq::<char>::empty()) =~= Seq::<u8>::empty());
        }
        Ok(Self { source_file, tokens, current_token, last_position: 0, state: Ghost(s) })
    }

    /// Moves to the next token and gives back the current one.
    fn advance(&mut self) -> (r: FelicoResult<Token<'source>>)
        requires
            old(self).wf(),
        ensures
            match advance_state(old(self).spec_chars(), old(self).spec_state()) {
                Ok(s1) => r matches Ok(t) && token_is(t, old(self).spec_state().tok, old(self).spec_chars())
                    && final(self).wf() && final(self).spec_state() == s1 && same_source(
                    *final(self),
                    *old(self),
                ),
                Err(e) => r matches Err(x) && error_matches(x, e, old(self).spec_chars(), old(self).spec_path()),
            },
    {
        let ghost chars = self.tokens.spec_chars();
        proof {
            self.tokens.lemma_wf();
            lemma_advance(chars, self.state@);
        }
        self.last_position = self.current_token.location.end;
        let next = self.tokens.next();
        let mut token = match next {
            Some(t) => t?,
            None => {
                let mut message = String::new();
                push_str(&mut message, "No more token in source file, expected at least EOF");
                return Err(FelicoError::message(message));
            },
        };
        let ghost s1 = advance_state(chars, self.state@)->Ok_0;
        std::mem::swap(&mut self.current_token, &mut token);
        self.state = Ghost(s1);
        Ok(token)
    }

    /// Consumes a token of `token_kind`; any other token is an error about it.
    fn consume(&mut self, token_kind: TokenKind) -> (r: FelicoResult<Token<'source>>)
        requires
            old(self).wf(),
        ensures
            match consume_token(old(self).spec_chars(), old(self).spec_state(), token_kind) {
                Ok((t, s1)) => r matches Ok(tok) && token_is(tok, t, old(self).spec_chars())
                    && final(self).wf() && final(self).spec_state() == s1 && same_source(
                    *final(self),
                    *old(self),
                ),
                Err(e) => r matches Err(x) && error_matches(x, e, old(self).spec_chars(), old(self).spec_path()),
            },
    {
        if self.current_token.kind != token_kind {
            let mut message = String::new();
            push_str(&mut message, "Unexpected token: ");
            self.current_token.push_display(&mut message);
            push_str(&mut message, ", expected ");
            push_str(&mut message, token_kind_to_name(token_kind));
            let mut label = String::new();
            push_str(&mut label, "expected ");
            push_str(&mut label, token_kind_to_name(token_kind));
            push_str(&mut label, " here");
            return self.create_token_error(message, label);
        }
        let token = self.advance()?;
        Ok(token)
    }

    /// An error with `error_message`, labelled `token_label` on the current token.
    fn create_token_error<T>(&mut self, error_message: String, token_label: String) -> (r: FelicoResult<T>)
        requires
            old(self).wf(),
        ensures
            *final(self) == *old(self),
            r matches Err(e) && e.message@ == error_message@ && (e.label matches Some(l)
                && l.file_path@ == old(self).spec_path() && l.start == old(self).current_token.location.start
                && l.end == old(self).current_token.location.end && l.text@ == token_label@),
    {
        Err(self.create_token_error_internal(error_message, token_label))
    }

    /// An error with `error_message`, labelled `token_label` on the current token.
    fn create_token_error_internal(&mut self, error_message: String, token_label: String) -> (e: FelicoError)
        requires
            old(self).wf(),
        ensures
            *final(self) == *old(self),
            e.message@ == error_message@,
            e.label matches Some(l) && l.file_path@ == old(self).spec_path() && l.start
                == old(self).current_token.location.start && l.end
                == old(self).current_token.location.end && l.text@ == token_label@,
    {
        let label = ErrorLabel {
            file_path: self.source_file.path().to_owned(),
            start: self.current_token.location.start,
            end: self.current_token.location.end,
            text: token_label,
        };
        FelicoError::labeled(error_message, label)
    }

    /// A node from `start_position` to the end of the last consumed token.
    fn create_node<T>(&mut self, start_position: usize, node: T) -> (n: AstNode<'source, T>)
        ensures
            *final(self) == *old(self),
            n.location.start == start_position,
            n.location.end == old(self).last_position,
            n.node == node,
    {
        AstNode::new(FileLocation::new(self.source_file, start_position, self.last_position), node)
    }

    /// Whether the current token is of `token_kind`.
    fn is_at(&mut self, token_kind: TokenKind) -> (b: bool)
        ensures
            *final(self) == *old(self),
            b == (old(self).current_token.kind == token_kind),
    {
        self.current_token.kind == token_kind
    }

    /// The byte offset where the current token starts.
    fn current_position(&mut self) -> (p: usize)
        ensures
            *final(self) == *old(self),
            p == old(self).current_token.location.start,
    {
        self.current_token.location.start
    }

    fn parse_identifier(&mut self) -> (r: FelicoResult<IdentifierNode<'source>>)
        requires
            old(self).wf(),
        ensures
            match grammar_identifier(old(self).spec_chars(), old(self).spec_state()) {
                Ok((id, s1)) => r matches Ok(n) && ident_view(n) == id && final(self).wf()
                    && final(self).spec_state() == s1 && same_source(*final(self), *old(self)),
                Err(e) => r matches Err(x) && error_matches(x, e, old(self).spec_chars(), old(self).spec_path()),
            },
    {
        let start_position = self.current_position();
        let name = self.consume(TokenKind::Identifier)?;
        Ok(self.create_node(start_position, Identifier::new(name.lexeme)))
    }

    fn parse_primary_expression(&mut self) -> (r: FelicoResult<ExpressionNode<'source>>)
        requires
            old(self).wf(),
        ensures
            match grammar_primary(old(self).spec_chars(), old(self).spec_state()) {
                Ok((v, s1)) => r matches Ok(n) && expr_node_view(n) == v && final(self).wf()
                    && final(self).spec_state() == s1 && same_source(*final(self), *old(self)),
                Err(e) => r matches Err(x) && error_matches(x, e, old(self).spec_chars(), old(self).spec_path()),
            },
    {
        let ghost chars = self.tokens.spec_chars();
        let start_position = self.current_position();
        if self.current_token.kind == TokenKind::Identifier {
            let name = self.parse_identifier()?;
            let node = self.create_node(start_position, Expression::var_use(name));
            proof {
                lemma_expr_node_view(node);
            }
            Ok(node)
        } else if self.current_token.kind == TokenKind::String {
            let token = self.consume(TokenKind::String)?;
            let value = extract_string_from_lexeme(token.lexeme.as_str())?;
            let node = self.create_node(start_position, Expression::literal(value));
            proof {
                lemma_expr_node_view(node);
            }
            Ok(node)
        } else {
            let mut message = String::new();
            push_str(&mut message, "Unexpected token: ");
            self.current_token.push_display(&mut message);
            let mut label = String::new();
            push_str(&mut label, "expected primary expression here");
            self.create_token_error(message, label)
        }
    }

    fn parse_call(&mut self) -> (r: FelicoResult<ExpressionNode<'source>>)
        requires
            old(self).wf(),
        ensures
            match grammar_call(old(self).spec_chars(), old(self).spec_state()) {
                Ok((v, s1)) => r matches Ok(n) && expr_node_view(n) == v && final(self).wf()
                    && final(self).spec_state() == s1 && same_source(*final(self), *old(self)),
                Err(e) => r matches Err(x) && error_matches(x, e, old(self).spec_chars(), old(self).spec_path()),
            },
        decreases old(self).spec_chars().len() - old(self).spec_state().tok.start, 0nat,
    {
        let ghost chars = self.tokens.spec_chars();
        let ghost s = self.state@;
        proof {
            lemma_primary_progress(chars, s);
        }
        let start_position = self.current_position();
        let expr = self.parse_primary_expression()?;
        if !self.is_at(TokenKind::ParenOpen) {
            return Ok(expr);
        }
        let ghost s1 = self.state@;
        proof {
            lemma_consume(chars, s1, TokenKind::ParenOpen);
        }
        self.consume(TokenKind::ParenOpen)?;
        let argument = self.parse_expression()?;
        self.consume(TokenKind::ParenClose)?;
        let arguments = vec![argument];
        proof {
            lemma_single_node_view(arguments@);
        }
        let node = self.create_node(start_position, Expression::call(expr, arguments));
        proof {
            lemma_expr_node_view(node);
        }
        Ok(node)
    }

    fn parse_expression(&mut self) -> (r: FelicoResult<ExpressionNode<'source>>)
        requires
            old(self).wf(),
        ensures
            match grammar_call(old(self).spec_chars(), old(self).spec_state()) {
                Ok((v, s1)) => r matches Ok(n) && expr_node_view(n) == v && final(self).wf()
                    && final(self).spec_state() == s1 && same_source(*final(self), *old(self)),
                Err(e) => r matches Err(x) && error_matches(x, e, old(self).spec_chars(), old(self).spec_path()),
            },
        decreases old(self).spec_chars().len() - old(self).spec_state().tok.start, 1nat,
    {
        let expression = self.parse_call()?;
        Ok(expression)
    }

    fn parse_expression_statement(&mut self) -> (r: FelicoResult<StatementNode<'source>>)
        requires
            old(self).wf(),
        ensures
            match grammar_call(old(self).spec_chars(), old(self).spec_state()) {
                Ok((v, s1)) => r matches Ok(n) && stmt_node_view(n) == (SpecStmtNode {
                    start: offset(old(self).spec_chars(), old(self).spec_state().tok.start),
                    end: offset(old(self).spec_chars(), s1.last),
                    expr: v,
                }) && final(self).wf() && final(self).spec_state() == s1 && same_source(
                    *final(self),
                    *old(self),
                ),
                Err(e) => r matches Err(x) && error_matches(x, e, old(self).spec_chars(), old(self).spec_path()),
            },
    {
        let start_position = self.current_position();
        let expression = self.parse_expression()?;
        Ok(self.create_node(start_position, Statement::Expression(ExpressionStatement { expression })))
    }

    fn parse_statement(&mut self) -> (r: FelicoResult<StatementNode<'source>>)
        requires
            old(self).wf(),
        ensures
            match grammar_statement(old(self).spec_chars(), old(self).spec_state()) {
                Ok((v, s1)) => r matches Ok(n) && stmt_node_view(n) == v && final(self).wf()
                    && final(self).spec_state() == s1 && same_source(*final(self), *old(self)),
                Err(e) => r matches Err(x) && error_matches(x, e, old(self).spec_chars(), old(self).spec_path()),
            },
    {
        let result = self.parse_expression_statement()?;
        self.consume(TokenKind::Semicolon)?;
        Ok(result)
    }

    fn parse_statements(&mut self, end_token_kind: TokenKind) -> (r: Result<Vec<StatementNode<'source>>, FelicoError>)
        requires
            old(self).wf(),
        ensures
            match grammar_statements(old(self).spec_chars(), old(self).spec_state(), end_token_kind) {
                Ok((v, s1)) => r matches Ok(n) && stmt_nodes_view(n@) == v && final(self).wf()
                    && final(self).spec_state() == s1 && same_source(*final(self), *old(self)),
                Err(e) => r matches Err(x) && error_matches(x, e, old(self).spec_chars(), old(self).spec_path()),
            },
    {
        let ghost chars = self.tokens.spec_chars();
        let ghost s0 = self.state@;
        let mut statements: Vec<StatementNode<'source>> = Vec::new();
        proof {
            assert(stmt_nodes_view(statements@) =~= Seq::<SpecStmtNode>::empty());
            assert(Seq::<SpecStmtNode>::empty() + Seq::<SpecStmtNode>::empty() =~= Seq::<SpecStmtNode>::empty());
            lemma_prepend_statements_empty(grammar_statements(chars, s0, end_token_kind));
        }
        while self.current_token.kind != end_token_kind
            invariant
                self.wf(),
                same_source(*self, *old(self)),
                chars == old(self).spec_chars(),
                s0 == old(self).spec_state(),
                grammar_statements(chars, s0, end_token_kind) == prepend_statements(
                    stmt_nodes_view(statements@),
                    grammar_statements(chars, self.spec_state(), end_token_kind),
                ),
            decreases chars.len() - self.spec_state().tok.start,
        {
            let ghost s = self.state@;
            proof {
                lemma_statement_progress(chars, s);
                if let Err(e) = grammar_statement(chars, s) {
                    assert(grammar_statements(chars, s, end_token_kind) == Err::<
                        (Seq<SpecStmtNode>, ParseState),
                        ParseError,
                    >(e));
                }
            }
            let statement = self.parse_statement()?;
            let ghost s1 = self.state@;
            let ghost st = stmt_node_view(statement);
            let ghost before = stmt_nodes_view(statements@);
            statements.push(statement);
            proof {
                assert(stmt_nodes_view(statements@) =~= before + seq![st]);
                lemma_prepend_statements_twice(before, seq![st], grammar_statements(chars, s1, end_token_kind));
            }
        }
        proof {
            assert(stmt_nodes_view(statements@) + Seq::<SpecStmtNode>::empty() =~= stmt_nodes_view(statements@));
        }
        Ok(statements)
    }

    fn parse_function(&mut self) -> (r: FelicoResult<FunDefinitionNode<'source>>)
        requires
            old(self).wf(),
        ensures
            match grammar_function(old(self).spec_chars(), old(self).spec_state()) {
                Ok((v, s1)) => r matches Ok(n) && fun_node_view(n) == v && final(self).wf()
                    && final(self).spec_state() == s1 && same_source(*final(self), *old(self)),
                Err(e) => r matches Err(x) && error_matches(x, e, old(self).spec_chars(), old(self).spec_path()),
            },
    {
        let start_position = self.current_position();
        self.consume(TokenKind::Fun)?;
        let name = self.parse_identifier()?;
        self.consume(TokenKind::ParenOpen)?;
        self.consume(TokenKind::ParenClose)?;
        self.consume(TokenKind::BraceOpen)?;
        let statements = self.parse_statements(TokenKind::BraceClose)?;
        self.consume(TokenKind::BraceClose)?;
        Ok(self.create_node(start_position, FunDefinition::new(name, statements)))
    }

    fn parse_compilation_unit(&mut self) -> (r: FelicoResult<CompilationUnitNode<'source>>)
        requires
            old(self).wf(),
        ensures
            match grammar_unit(old(self).spec_chars(), old(self).spec_state()) {
                Ok((v, s1)) => r matches Ok(n) && unit_node_view(n) == v && final(self).wf()
                    && final(self).spec_state() == s1 && same_source(*final(self), *old(self)),
                Err(e) => r matches Err(x) && error_matches(x, e, old(self).spec_chars(), old(self).spec_path()),
            },
    {
        let ghost chars = self.tokens.spec_chars();
        let ghost s0 = self.state@;
        let start_position = self.current_position();
        let mut fun_definitions: Vec<FunDefinitionNode<'source>> = Vec::new();
        proof {
            assert(fun_nodes_view(fun_definitions@) =~= Seq::<SpecFunNode>::empty());
            lemma_prepend_functions_empty(grammar_functions(chars, s0));
        }
        while self.current_token.kind != TokenKind::EOF
            invariant
                self.wf(),
                same_source(*self, *old(self)),
                chars == old(self).spec_chars(),
                s0 == old(self).spec_state(),
                start_position == old(self).current_token.location.start,
                grammar_functions(chars, s0) == prepend_functions(
                    fun_nodes_view(fun_definitions@),
                    grammar_functions(chars, self.spec_state()),
                ),
            decreases chars.len() - self.spec_state().tok.start,
        {
            let ghost s = self.state@;
            if self.current_token.kind != TokenKind::Fun {
                let mut message = String::new();
                push_str(&mut message, "Unexpected token: ");
                push_str(&mut message, token_kind_to_name(self.current_token.kind));
                return Err(FelicoError::message(message));
            }
            proof {
                lemma_function_progress(chars, s);
                if let Err(e) = grammar_function(chars, s) {
                    assert(grammar_functions(chars, s) == Err::<
                        (Seq<SpecFunNode>, ParseState),
                        ParseError,
                    >(e));
                }
            }
            let f = self.parse_function()?;
            let ghost fv = fun_node_view(f);
            let ghost before = fun_nodes_view(fun_definitions@);
            fun_definitions.push(f);
            proof {
                assert(fun_nodes_view(fun_definitions@) =~= before + seq![fv]);
            }
            let ghost s1 = self.state@;
            proof {
                lemma_advance(chars, s1);
                if let Err(e) = advance_state(chars, s1) {
                    assert(grammar_functions(chars, s) == Err::<
                        (Seq<SpecFunNode>, ParseState),
                        ParseError,
                    >(e));
                }
            }
            self.advance()?;
            proof {
                let s2 = self.state@;
                assert(grammar_functions(chars, s) == prepend_functions(
                    seq![fv],
                    grammar_functions(chars, s2),
                ));
                lemma_prepend_functions_twice(before, seq![fv], grammar_functions(chars, s2));
            }
        }
        proof {
            assert(fun_nodes_view(fun_definitions@) + Seq::<SpecFunNode>::empty() =~= fun_nodes_view(fun_definitions@));
        }
        let node = self.create_node(start_position, CompilationUnit::new(fun_definitions));
        Ok(node)
    }

    /// Parses a compilation unit: function definitions up to the end of the text (see
    /// `grammar_unit`).
    pub fn parse(&mut self) -> (r: FelicoResult<CompilationUnitNode<'source>>)
        requires
            old(self).wf(),
        ensures
            match grammar_unit(old(self).spec_chars(), old(self).spec_state()) {
                Ok((v, s1)) => r matches Ok(n) && unit_node_view(n) == v && final(self).wf()
                    && final(self).spec_state() == s1 && same_source(*final(self), *old(self)),
                Err(e) => r matches Err(x) && error_matches(x, e, old(self).spec_chars(), old(self).spec_path()),
            },
    {
        self.parse_compilation_unit()
    }

    /// Parses a script: statements up to the end of the text, which become the body of
    /// a function named `script` (see `grammar_script`).
    pub fn parse_script(&mut self) -> (r: FelicoResult<CompilationUnitNode<'source>>)
        requires
            old(self).wf(),
        ensures
            match grammar_script(old(self).spec_chars(), old(self).spec_state()) {
                Ok((v, s1)) => r matches Ok(n) && unit_node_view(n) == v && final(self).wf()
                    && final(self).spec_state() == s1 && same_source(*final(self), *old(self)),
                Err(e) => r matches Err(x) && error_matches(x, e, old(self).spec_chars(), old(self).spec_path()),
            },
    {
        let start_position = self.current_position();
        let name = self.create_node(start_position, Identifier::new("script".to_owned()));
        let statements = self.parse_statements(TokenKind::EOF)?;
        let script_function = self.create_node(start_position, FunDefinition::new(name, statements));
        let fun_definitions = vec![script_function];
        proof {
            assert(fun_nodes_view(fun_definitions@) =~= seq![fun_node_view(script_function)]);
        }
        Ok(self.create_node(start_position, CompilationUnit::new(fun_definitions)))
    }
}

/// The two parsers read the same text and refer to the same file.
pub open spec fn same_source(a: Parser, b: Parser) -> bool {
    a.spec_chars() == b.spec_chars() && a.spec_path() == b.spec_path()
}

} // verus!
