//! Statements of the compiler's syntax tree.
use vstd::prelude::*;
use crate::compiler::frontend::ast::expr::Expr;
use crate::compiler::frontend::ast::node::AstNode;
use crate::compiler::frontend::ast::AstData;
use crate::compiler::frontend::lex::token::Token;

verus! {

/// A statement.
pub enum Stmt {
    Expression(ExprStmt),
    Let(LetStmt),
    Struct(StructStmt),
    Trait(TraitStmt),
    Impl(ImplStmt),
    Fun(FunStmt),
    While(WhileStmt),
}

impl AstData for Stmt {}

/// An expression evaluated for its effect.
pub struct ExprStmt {
    pub expression: AstNode<Expr>,
}

/// A variable declaration, with its initial value and its declared type, if any.
pub struct LetStmt {
    pub name: Token,
    pub expression: AstNode<Expr>,
    pub type_expression: Option<AstNode<Expr>>,
}

/// A parameter of a function: its name and its type.
pub struct FunParameter {
    pub name: Token,
    pub type_expression: AstNode<Expr>,
}

impl FunParameter {
    /// The parameter `name` of type `type_expression`.
    pub fn new(name: Token, type_expression: AstNode<Expr>) -> (p: Self)
        ensures
            p.name == name,
            p.type_expression == type_expression,
    {
        Self { name, type_expression }
    }
}

/// A function declaration.
pub struct FunStmt {
    pub name: Token,
    pub parameters: Vec<FunParameter>,
    pub return_type: AstNode<Expr>,
    pub body: AstNode<Expr>,
}

impl AstData for FunStmt {}

/// A loop: a condition and the statement repeated while it holds.
pub struct WhileStmt {
    pub condition: AstNode<Expr>,
    pub body_stmt: AstNode<Stmt>,
}

/// The methods of a type.
pub struct ImplStmt {
    pub name: Token,
    pub methods: Vec<AstNode<FunStmt>>,
}

/// A struct declaration: its name and its fields.
pub struct StructStmt {
    pub name: Token,
    pub fields: Vec<AstNode<StructStmtField>>,
}

/// A trait declaration: its name.
pub struct TraitStmt {
    pub name: Token,
}

/// A field of a struct declaration: its name and its type.
pub struct StructStmtField {
    pub name: Token,
    pub type_expression: AstNode<Expr>,
}

impl AstData for StructStmtField {}

} // verus!
