//! Function definitions.
use vstd::prelude::*;
use crate::ast::ast_node::AstNode;
use crate::ast::expression::{identifier_text, node_prefix, push_identifier, push_node_prefix};
use crate::ast::identifier::IdentifierNode;
use crate::ast::statement::{
    statement_node_printable, statements_text, StatementNode,
};
use crate::base::error::FelicoResult;
use crate::text::push_str;

verus! {

/// A function definition: its name and its statements.
pub struct FunDefinition<'source> {
    pub name: IdentifierNode<'source>,
    pub statements: Vec<StatementNode<'source>>,
}

/// A function definition with its location.
pub type FunDefinitionNode<'source> = AstNode<'source, FunDefinition<'source>>;

/// The function definition can be printed at `indent`: each statement can be printed one
/// level deeper.
pub open spec fn fun_printable(f: FunDefinition, indent: int) -> bool {
    forall|i: int|
        0 <= i < f.statements@.len() ==> #[trigger] statement_node_printable(
            f.statements@[i],
            indent + 1,
        )
}

/// The function definition node can be printed at `indent`.
pub open spec fn fun_node_printable(n: FunDefinitionNode, indent: int) -> bool {
    n.location.start <= n.location.end && fun_printable(n.node, indent)
}

/// The printed form of a function definition: `fun `, its name, a line break, then its
/// statements one level deeper.
pub open spec fn fun_text(f: FunDefinition, indent: nat) -> Seq<char> {
    "fun "@ + identifier_text(f.name.node.name@) + "\n"@ + statements_text(
        f.statements@,
        f.statements@.len() as int,
        indent + 1,
    )
}

/// The printed form of a function definition node: its head, then the definition.
pub open spec fn fun_node_text(n: FunDefinitionNode, indent: nat) -> Seq<char> {
    node_prefix(n.location.start as int, n.location.end as int, indent) + fun_text(n.node, indent)
}

/// The printed form of the first `k` function definition nodes.
pub open spec fn funs_text(s: Seq<FunDefinitionNode>, k: int, indent: nat) -> Seq<char>
    decreases k,
{
    if k <= 0 || k > s.len() {
        Seq::empty()
    } else {
        funs_text(s, k - 1, indent) + fun_node_text(s[k - 1], indent)
    }
}

impl<'source> FunDefinition<'source> {
    /// A function definition named `name` with `statements`.
    pub fn new(name: IdentifierNode<'source>, statements: Vec<StatementNode<'source>>) -> (f: Self)
        ensures
            f.name == name,
            f.statements@ == statements@,
    {
        Self { name, statements }
    }

    /// Appends the printed form of the function definition (see `fun_text`).
    pub fn test_print(&self, out: &mut String, indent: usize) -> (r: FelicoResult<()>)
        requires
            fun_printable(*self, indent as int),
        ensures
            r is Ok,
            final(out)@ == old(out)@ + fun_text(*self, indent as nat),
    {
        push_str(out, "fun ");
        push_identifier(out, self.name.node.name.as_str());
        push_str(out, "\n");
        let ghost base = out@;
        let mut i: usize = 0;
        while i < self.statements.len()
            invariant
                i <= self.statements@.len(),
                fun_printable(*self, indent as int),
                out@ == base + statements_text(self.statements@, i as int, (indent + 1) as nat),
            decreases self.statements.len() - i,
        {
            assert(statement_node_printable(self.statements@[i as int], indent + 1));
            let _ = self.statements[i].test_print(out, indent + 1);
            i = i + 1;
            assert(out@ =~= base + statements_text(self.statements@, i as int, (indent + 1) as nat));
        }
        assert(out@ =~= old(out)@ + fun_text(*self, indent as nat));
        Ok(())
    }
}

impl<'source> AstNode<'source, FunDefinition<'source>> {
    /// Appends the printed form of the function definition node (see `fun_node_text`).
    pub fn test_print(&self, out: &mut String, indent: usize) -> (r: FelicoResult<()>)
        requires
            fun_node_printable(*self, indent as int),
        ensures
            r is Ok,
            final(out)@ == old(out)@ + fun_node_text(*self, indent as nat),
    {
        push_node_prefix(out, self.location.start, self.location.end, indent);
        let _ = self.node.test_print(out, indent);
        assert(out@ =~= old(out)@ + fun_node_text(*self, indent as nat));
        Ok(())
    }
}

} // verus!
