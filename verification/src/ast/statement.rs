//! Statements.
use vstd::prelude::*;
use crate::ast::ast_node::AstNode;
use crate::ast::expression::{
    expr_depth, expr_node_view, expr_printable, expr_text, node_prefix, print_expression,
    push_node_prefix, ExpressionNode,
};
use crate::base::error::FelicoResult;
use crate::text::push_str;

verus! {

/// A statement.
pub enum Statement<'source> {
    Expression(ExpressionStatement<'source>),
}

/// A statement with its location.
pub type StatementNode<'source> = AstNode<'source, Statement<'source>>;

/// A statement made of one expression.
pub struct ExpressionStatement<'source> {
    pub expression: ExpressionNode<'source>,
}

/// The expression node of a statement.
pub open spec fn statement_expression<'source>(s: Statement<'source>) -> ExpressionNode<'source> {
    match s {
        Statement::Expression(e) => e.expression,
    }
}

/// The statement can be printed at `indent`: its expression's nodes end no earlier than
/// they start, and the deepest indentation fits in a `usize`.
pub open spec fn statement_printable(s: Statement, indent: int) -> bool {
    let e = expr_node_view(statement_expression(s));
    expr_printable(e.expr) && indent + 1 + expr_depth(e.expr) <= usize::MAX
}

/// The statement node can be printed at `indent`.
pub open spec fn statement_node_printable(n: StatementNode, indent: int) -> bool {
    n.location.start <= n.location.end && statement_printable(n.node, indent)
}

/// The printed form of a statement: `stmt `, then its expression one level deeper.
pub open spec fn statement_text(s: Statement, indent: nat) -> Seq<char> {
    "stmt "@ + expr_text(expr_node_view(statement_expression(s)).expr, indent + 1)
}

/// The printed form of a statement node: its head, then the statement.
pub open spec fn statement_node_text(n: StatementNode, indent: nat) -> Seq<char> {
    node_prefix(n.location.start as int, n.location.end as int, indent) + statement_text(
        n.node,
        indent,
    )
}

/// The printed form of the first `k` statement nodes.
pub open spec fn statements_text(s: Seq<StatementNode>, k: int, indent: nat) -> Seq<char>
    decreases k,
{
    if k <= 0 || k > s.len() {
        Seq::empty()
    } else {
        statements_text(s, k - 1, indent) + statement_node_text(s[k - 1], indent)
    }
}

impl<'source> Statement<'source> {
    /// A statement made of `expression`.
    pub fn expression(expression: ExpressionNode<'source>) -> (s: Self)
        ensures
            statement_expression(s) == expression,
    {
        Self::Expression(ExpressionStatement { expression })
    }

    /// Appends the printed form of the statement (see `statement_text`).
    pub fn test_print(&self, out: &mut String, indent: usize) -> (r: FelicoResult<()>)
        requires
            statement_printable(*self, indent as int),
        ensures
            r is Ok,
            final(out)@ == old(out)@ + statement_text(*self, indent as nat),
    {
        push_str(out, "stmt ");
        match self {
            Statement::Expression(e) => {
                proof {
                    crate::ast::expression::lemma_expr_node_view(e.expression);
                }
                print_expression(&e.expression.node, out, indent + 1);
            },
        }
        assert(out@ =~= old(out)@ + statement_text(*self, indent as nat));
        Ok(())
    }
}

impl<'source> AstNode<'source, Statement<'source>> {
    /// Appends the printed form of the statement node (see `statement_node_text`).
    pub fn test_print(&self, out: &mut String, indent: usize) -> (r: FelicoResult<()>)
        requires
            statement_node_printable(*self, indent as int),
        ensures
            r is Ok,
            final(out)@ == old(out)@ + statement_node_text(*self, indent as nat),
    {
        push_node_prefix(out, self.location.start, self.location.end, indent);
        let _ = self.node.test_print(out, indent);
        assert(out@ =~= old(out)@ + statement_node_text(*self, indent as nat));
        Ok(())
    }
}

} // verus!
