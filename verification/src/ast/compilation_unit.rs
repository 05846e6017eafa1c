//! Compilation units: the function definitions of one source file.
use vstd::prelude::*;
use crate::ast::ast_node::AstNode;
use crate::ast::expression::{node_prefix, push_node_prefix};
use crate::ast::fun_definition::{fun_node_printable, funs_text, FunDefinitionNode};
use crate::base::error::FelicoResult;
use crate::text::{push_repeated, push_str, repeated};

verus! {

/// A compilation unit: a list of function definitions.
pub struct CompilationUnit<'source> {
    pub fun_definitions: Vec<FunDefinitionNode<'source>>,
}

/// A compilation unit with its location.
pub type CompilationUnitNode<'source> = AstNode<'source, CompilationUnit<'source>>;

/// The compilation unit can be printed at `indent`: each function definition can be
/// printed one level deeper, and that level fits in a `usize`.
pub open spec fn unit_printable(u: CompilationUnit, indent: int) -> bool {
    forall|i: int|
        0 <= i < u.fun_definitions@.len() ==> indent + 1 <= usize::MAX
            && #[trigger] fun_node_printable(u.fun_definitions@[i], indent + 1)
}

/// The compilation unit node can be printed at `indent`.
pub open spec fn unit_node_printable(n: CompilationUnitNode, indent: int) -> bool {
    n.location.start <= n.location.end && unit_printable(n.node, indent)
}

/// The printed form of a compilation unit: `indent` tabs, ` Compilation Unit`, a line
/// break, then the function definitions one level deeper.
pub open spec fn unit_text(u: CompilationUnit, indent: nat) -> Seq<char> {
    repeated('\t', indent) + " Compilation Unit\n"@ + funs_text(
        u.fun_definitions@,
        u.fun_definitions@.len() as int,
        indent + 1,
    )
}

/// The printed form of a compilation unit node: its head, then the unit.
pub open spec fn unit_node_text(n: CompilationUnitNode, indent: nat) -> Seq<char> {
    node_prefix(n.location.start as int, n.location.end as int, indent) + unit_text(n.node, indent)
}

impl<'source> CompilationUnit<'source> {
    /// A compilation unit made of `fun_definitions`.
    pub fn new(fun_definitions: Vec<FunDefinitionNode<'source>>) -> (u: Self)
        ensures
            u.fun_definitions@ == fun_definitions@,
    {
        Self { fun_definitions }
    }

    /// Appends the printed form of the compilation unit (see `unit_text`).
    pub fn test_print(&self, out: &mut String, indent: usize) -> (r: FelicoResult<()>)
        requires
            unit_printable(*self, indent as int),
        ensures
            r is Ok,
            final(out)@ == old(out)@ + unit_text(*self, indent as nat),
    {
        push_repeated(out, '\t', indent);
        push_str(out, " Compilation Unit\n");
        let ghost base = out@;
        let mut i: usize = 0;
        while i < self.fun_definitions.len()
            invariant
                i <= self.fun_definitions@.len(),
                unit_printable(*self, indent as int),
                out@ == base + funs_text(self.fun_definitions@, i as int, (indent + 1) as nat),
            decreases self.fun_definitions.len() - i,
        {
            assert(fun_node_printable(self.fun_definitions@[i as int], indent + 1));
            let _ = self.fun_definitions[i].test_print(out, indent + 1);
            i = i + 1;
            assert(out@ =~= base + funs_text(self.fun_definitions@, i as int, (indent + 1) as nat));
        }
        assert(out@ =~= old(out)@ + unit_text(*self, indent as nat));
        Ok(())
    }
}

impl<'source> AstNode<'source, CompilationUnit<'source>> {
    /// Appends the printed form of the compilation unit node (see `unit_node_text`).
    pub fn test_print(&self, out: &mut String, indent: usize) -> (r: FelicoResult<()>)
        requires
            unit_node_printable(*self, indent as int),
        ensures
            r is Ok,
            final(out)@ == old(out)@ + unit_node_text(*self, indent as nat),
    {
        push_node_prefix(out, self.location.start, self.location.end, indent);
        let _ = self.node.test_print(out, indent);
        assert(out@ =~= old(out)@ + unit_node_text(*self, indent as nat));
        Ok(())
    }
}

} // verus!
