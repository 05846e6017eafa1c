//! Expressions of the compiler's syntax tree.
use vstd::prelude::*;
use crate::compiler::frontend::ast::node::AstNode;
use crate::compiler::frontend::ast::qualified_name::QualifiedName;
use crate::compiler::frontend::ast::stmt::Stmt;
use crate::compiler::frontend::ast::AstData;
use crate::compiler::frontend::lex::token::Token;

verus! {

/// An expression.
pub enum Expr {
    Return(ReturnExpr),
    Unary(UnaryExpr),
    Binary(BinaryExpr),
    Literal(LiteralExpr),
    Variable(VarUse),
    Assign(AssignExpr),
    Call(CallExpr),
    Get(GetExpr),
    SetField(SetExpr),
    Block(BlockExpr),
    If(IfExpr),
    CreateStruct(CreateStructExpr),
}

impl AstData for Expr {}

/// A read of a variable, with the number of scopes between the read and the declaration.
pub struct VarUse {
    pub name: AstNode<QualifiedName>,
    pub distance: i32,
}

/// An operator between two operands.
pub struct BinaryExpr {
    pub operator: Token,
    pub left: AstNode<Expr>,
    pub right: AstNode<Expr>,
}

/// An assignment to a variable.
pub struct AssignExpr {
    pub destination: AstNode<QualifiedName>,
    pub value: AstNode<Expr>,
    pub distance: i32,
}

/// An operator before one operand.
pub struct UnaryExpr {
    pub operator: Token,
    pub right: AstNode<Expr>,
}

/// A literal value. A floating-point literal is held as the text that `Debug` shows
/// for its value (`1.0` for the source text `1`).
pub enum LiteralExpr {
    Str(String),
    F64(String),
    I64(i64),
    Bool(bool),
    Unit,
}

/// A call of `callee` with `arguments`.
pub struct CallExpr {
    pub callee: AstNode<Expr>,
    pub arguments: Vec<AstNode<Expr>>,
}

/// A read of the field `name` of `object`.
pub struct GetExpr {
    pub object: AstNode<Expr>,
    pub name: Token,
}

/// A write of `value` to the field `name` of `object`.
pub struct SetExpr {
    pub object: AstNode<Expr>,
    pub name: Token,
    pub value: AstNode<Expr>,
}

/// A tuple of expressions.
pub struct TupleExpr {
    pub components: Vec<AstNode<Expr>>,
}

/// Statements, then the expression whose value the block has.
pub struct BlockExpr {
    pub stmts: Vec<AstNode<Stmt>>,
    pub result_expression: AstNode<Expr>,
}

/// A condition, what is evaluated when it holds, and what otherwise, if anything.
pub struct IfExpr {
    pub condition: AstNode<Expr>,
    pub then_expr: AstNode<Expr>,
    pub else_expr: Option<AstNode<Expr>>,
}

/// A return from the enclosing function.
pub struct ReturnExpr {
    pub expression: AstNode<Expr>,
}

/// A value of a struct type, with its fields' initializers.
pub struct CreateStructExpr {
    pub type_expression: AstNode<Expr>,
    pub field_initializers: Vec<CreateStructInitializer>,
}

/// The initializer of one field of a struct value.
pub struct CreateStructInitializer {
    pub field_name: Token,
    pub expression: AstNode<Expr>,
}

} // verus!
