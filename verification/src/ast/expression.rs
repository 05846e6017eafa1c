//! Expressions: calls, variable uses and literals.
use vstd::prelude::*;
use crate::ast::ast_node::AstNode;
use crate::ast::identifier::IdentifierNode;
use crate::base::error::FelicoResult;
use crate::base::value::{string_value_text, Value};
use crate::text::{decimal, pad_left, pad_right, push_decimal_padded, push_decimal_right_padded, push_spaces, push_str, spaces};

verus! {

/// An expression.
pub enum Expression<'source> {
    Call(CallExpression<'source>),
    VarUse(VarUseExpression<'source>),
    Literal(LiteralExpression),
}

/// An expression with its location.
pub type ExpressionNode<'source> = AstNode<'source, Expression<'source>>;

/// A call: the callee and the arguments.
pub struct CallExpression<'source> {
    callee: Box<ExpressionNode<'source>>,
    arguments: Vec<ExpressionNode<'source>>,
}

/// The use of a variable.
pub struct VarUseExpression<'source> {
    name: IdentifierNode<'source>,
}

/// A literal value.
pub struct LiteralExpression {
    value: Value,
}

/// An expression node as the specifications see it: its byte range and shape.
pub struct SpecExprNode {
    pub start: int,
    pub end: int,
    pub expr: SpecExpr,
}

/// The shape of an expression.
pub enum SpecExpr {
    /// A call of a callee with arguments.
    Call(Box<SpecExprNode>, Seq<SpecExprNode>),
    /// A variable use: the identifier's range and name.
    VarUse(int, int, Seq<char>),
    /// A string literal with the given text.
    Literal(Seq<char>),
}

/// The view of an expression node.
pub closed spec fn expr_node_view(n: ExpressionNode) -> SpecExprNode
    decreases n, 1nat,
{
    SpecExprNode {
        start: n.location.start as int,
        end: n.location.end as int,
        expr: expr_view(n.node),
    }
}

/// The view of an expression.
pub closed spec fn expr_view(e: Expression) -> SpecExpr
    decreases e, 0nat,
{
    match e {
        Expression::Call(c) => SpecExpr::Call(
            Box::new(expr_node_view(*c.callee)),
            expr_nodes_view(c.arguments@, c.arguments@.len() as int),
        ),
        Expression::VarUse(v) => SpecExpr::VarUse(
            v.name.location.start as int,
            v.name.location.end as int,
            v.name.node.name@,
        ),
        Expression::Literal(l) => match l.value {
            Value::String(s) => SpecExpr::Literal(s@),
        },
    }
}

/// The views of the first `n` expression nodes.
pub closed spec fn expr_nodes_view(s: Seq<ExpressionNode>, n: int) -> Seq<SpecExprNode>
    decreases s, n,
{
    if n <= 0 || n > s.len() {
        Seq::empty()
    } else {
        expr_nodes_view(s, n - 1).push(expr_node_view(s[n - 1]))
    }
}

/// How deep an expression nests.
pub open spec fn expr_depth(e: SpecExpr) -> nat
    decreases e, 0nat,
{
    match e {
        SpecExpr::Call(callee, args) => {
            let a = nodes_depth(args, args.len() as int);
            let c = expr_depth(callee.expr);
            1 + if a > c { a } else { c }
        },
        _ => 0,
    }
}

/// How deep the first `n` expression nodes nest.
pub open spec fn nodes_depth(s: Seq<SpecExprNode>, n: int) -> nat
    decreases s, n,
{
    if n <= 0 || n > s.len() {
        0
    } else {
        let a = nodes_depth(s, n - 1);
        let b = expr_depth(s[n - 1].expr);
        if a > b { a } else { b }
    }
}

/// Every printed node of the expression ends no earlier than it starts.
pub open spec fn expr_printable(e: SpecExpr) -> bool
    decreases e, 0nat,
{
    match e {
        SpecExpr::Call(callee, args) => expr_printable(callee.expr) && nodes_printable(
            args,
            args.len() as int,
        ),
        _ => true,
    }
}

/// The first `n` nodes end no earlier than they start, and so do their parts.
pub open spec fn nodes_printable(s: Seq<SpecExprNode>, n: int) -> bool
    decreases s, n,
{
    if n <= 0 || n > s.len() {
        true
    } else {
        nodes_printable(s, n - 1) && s[n - 1].start <= s[n - 1].end && expr_printable(
            s[n - 1].expr,
        )
    }
}

/// The head of a printed node: its start and length, then the indentation.
pub open spec fn node_prefix(start: int, end: int, indent: nat) -> Seq<char> {
    "🌲 "@ + pad_left(decimal(start as nat), 3) + "+"@ + pad_right(decimal((end - start) as nat), 3)
        + spaces(indent)
}

/// The printed form of an identifier.
pub open spec fn identifier_text(name: Seq<char>) -> Seq<char> {
    "❮"@ + name + "❯"@
}

/// The printed form of an expression.
pub open spec fn expr_text(e: SpecExpr, indent: nat) -> Seq<char>
    decreases e, 0nat,
{
    match e {
        SpecExpr::Call(callee, args) => " call "@ + expr_text(callee.expr, indent + 1) + "\n"@
            + nodes_text(args, args.len() as int, indent + 1),
        SpecExpr::VarUse(_, _, name) => " var use "@ + identifier_text(name),
        SpecExpr::Literal(text) => " literal "@ + string_value_text(text)
            + "\n"@,
    }
}

/// The printed form of the first `n` expression nodes.
pub open spec fn nodes_text(s: Seq<SpecExprNode>, n: int, indent: nat) -> Seq<char>
    decreases s, n,
{
    if n <= 0 || n > s.len() {
        Seq::empty()
    } else {
        nodes_text(s, n - 1, indent) + node_prefix(s[n - 1].start, s[n - 1].end, indent)
            + expr_text(s[n - 1].expr, indent)
    }
}

/// Appends the head of a printed node (see `node_prefix`).
pub fn push_node_prefix(out: &mut String, start: usize, end: usize, indent: usize)
    requires
        start <= end,
    ensures
        final(out)@ == old(out)@ + node_prefix(start as int, end as int, indent as nat),
{
    push_str(out, "🌲 ");
    push_decimal_padded(out, start as u64, 3);
    push_str(out, "+");
    push_decimal_right_padded(out, (end - start) as u64, 3);
    push_spaces(out, indent);
    assert(out@ =~= old(out)@ + node_prefix(start as int, end as int, indent as nat));
}

/// Appends the printed form of an identifier.
pub fn push_identifier(out: &mut String, name: &str)
    ensures
        final(out)@ == old(out)@ + identifier_text(name@),
{
    push_str(out, "❮");
    push_str(out, name);
    push_str(out, "❯");
    assert(out@ =~= old(out)@ + identifier_text(name@));
}

proof fn lemma_nodes_view_len(s: Seq<ExpressionNode>, n: int)
    requires
        0 <= n <= s.len(),
    ensures
        expr_nodes_view(s, n).len() == n,
        forall|i: int| 0 <= i < n ==> #[trigger] expr_nodes_view(s, n)[i] == expr_node_view(s[i]),
    decreases n,
{
    if n > 0 {
        lemma_nodes_view_len(s, n - 1);
    }
}

proof fn lemma_nodes_prefix(s: Seq<SpecExprNode>, k: int, n: int)
    requires
        0 <= k <= n <= s.len(),
        nodes_printable(s, n),
    ensures
        nodes_printable(s, k),
        nodes_depth(s, k) <= nodes_depth(s, n),
        k < n ==> s[k].start <= s[k].end && expr_printable(s[k].expr) && expr_depth(s[k].expr)
            <= nodes_depth(s, n),
    decreases n - k,
{
    if k < n {
        lemma_nodes_prefix(s, k, n - 1);
        if k < n - 1 {
            lemma_nodes_prefix(s, k + 1, n - 1);
        }
    }
}

pub(crate) fn print_expression(e: &Expression, out: &mut String, indent: usize)
    requires
        expr_printable(expr_view(*e)),
        indent + expr_depth(expr_view(*e)) <= usize::MAX,
    ensures
        final(out)@ == old(out)@ + expr_text(expr_view(*e), indent as nat),
    decreases e, 0nat,
{
    match e {
        Expression::Call(call) => {
            push_str(out, " call ");
            let ghost v = expr_view(*e);
            let ghost args = expr_nodes_view(call.arguments@, call.arguments@.len() as int);
            proof {
                lemma_nodes_view_len(call.arguments@, call.arguments@.len() as int);
            }
            print_expression(&call.callee.node, out, indent + 1);
            push_str(out, "\n");
            let ghost base = out@;
            let mut i: usize = 0;
            while i < call.arguments.len()
                invariant
                    *e == Expression::Call(*call),
                    i <= call.arguments@.len(),
                    args == expr_nodes_view(call.arguments@, call.arguments@.len() as int),
                    args.len() == call.arguments@.len(),
                    forall|j: int| 0 <= j < args.len() ==> #[trigger] args[j] == expr_node_view(call.arguments@[j]),
                    nodes_printable(args, args.len() as int),
                    indent + 1 + nodes_depth(args, args.len() as int) <= usize::MAX,
                    out@ == base + nodes_text(args, i as int, (indent + 1) as nat),
                decreases call.arguments.len() - i,
            {
                proof {
                    lemma_nodes_prefix(args, i as int, args.len() as int);
                    assert(decreases_to!(*e => (*e)->Call_0));
                    assert(decreases_to!((*e)->Call_0 => call.arguments));
                    assert(decreases_to!(call.arguments => call.arguments@));
                    assert(decreases_to!(call.arguments@ => call.arguments@[i as int]));
                    assert(decreases_to!(*e => call.arguments@[i as int]));
                }
                print_expression_node(&call.arguments[i], out, indent + 1);
                i = i + 1;
                assert(out@ =~= base + nodes_text(args, i as int, (indent + 1) as nat));
            }
            assert(out@ =~= old(out)@ + expr_text(v, indent as nat));
        },
        Expression::VarUse(var_use) => {
            push_str(out, " var use ");
            push_identifier(out, var_use.name.node.name.as_str());
            assert(out@ =~= old(out)@ + expr_text(expr_view(*e), indent as nat));
        },
        Expression::Literal(literal) => {
            push_str(out, " literal ");
            match &literal.value {
                Value::String(text) => {
                    push_str(out, "\"");
                    push_str(out, text.as_str());
                    push_str(out, "\"");
                    push_str(out, "\n");
                    proof { reveal_strlit("\""); }
                    assert(out@ =~= old(out)@ + expr_text(expr_view(*e), indent as nat));
                },
            }
        },
    }
}

pub(crate) fn print_expression_node(n: &ExpressionNode, out: &mut String, indent: usize)
    requires
        expr_node_view(*n).start <= expr_node_view(*n).end,
        expr_printable(expr_node_view(*n).expr),
        indent + expr_depth(expr_node_view(*n).expr) <= usize::MAX,
    ensures
        final(out)@ == old(out)@ + node_prefix(expr_node_view(*n).start, expr_node_view(*n).end, indent as nat)
            + expr_text(expr_node_view(*n).expr, indent as nat),
    decreases n, 1nat,
{
    push_node_prefix(out, n.location.start, n.location.end, indent);
    print_expression(&n.node, out, indent);
}

impl<'source> Expression<'source> {
    /// A call of `callee` with `arguments`.
    pub fn call(callee: ExpressionNode<'source>, arguments: Vec<ExpressionNode<'source>>) -> (e: Self)
        ensures
            expr_view(e) == SpecExpr::Call(
                Box::new(expr_node_view(callee)),
                expr_nodes_view(arguments@, arguments@.len() as int),
            ),
    {
        Self::Call(CallExpression { callee: Box::new(callee), arguments })
    }

    /// The use of the variable `name`.
    pub fn var_use(name: IdentifierNode<'source>) -> (e: Self)
        ensures
            expr_view(e) == SpecExpr::VarUse(
                name.location.start as int,
                name.location.end as int,
                name.node.name@,
            ),
    {
        Self::VarUse(VarUseExpression { name })
    }

    /// A literal with `value`.
    pub fn literal(value: Value) -> (e: Self)
        ensures
            expr_view(e) == SpecExpr::Literal(
                match value {
                    Value::String(s) => s@,
                },
            ),
    {
        Self::Literal(LiteralExpression { value })
    }

    /// Appends the printed form of the expression (see `expr_text`).
    pub fn test_print(&self, out: &mut String, indent: usize) -> (r: FelicoResult<()>)
        requires
            expr_printable(expr_view(*self)),
            indent + expr_depth(expr_view(*self)) <= usize::MAX,
        ensures
            r is Ok,
            final(out)@ == old(out)@ + expr_text(expr_view(*self), indent as nat),
    {
        print_expression(self, out, indent);
        Ok(())
    }
}

impl<'source> AstNode<'source, Expression<'source>> {
    /// Appends the printed form of the expression node: its head, then the expression.
    pub fn test_print(&self, out: &mut String, indent: usize) -> (r: FelicoResult<()>)
        requires
            expr_node_view(*self).start <= expr_node_view(*self).end,
            expr_printable(expr_node_view(*self).expr),
            indent + expr_depth(expr_node_view(*self).expr) <= usize::MAX,
        ensures
            r is Ok,
            final(out)@ == old(out)@ + node_prefix(
                expr_node_view(*self).start,
                expr_node_view(*self).end,
                indent as nat,
            ) + expr_text(expr_node_view(*self).expr, indent as nat),
    {
        print_expression_node(self, out, indent);
        Ok(())
    }
}

/// The view of an expression node is made of its location and its expression's view.
pub proof fn lemma_expr_node_view(n: ExpressionNode)
    ensures
        expr_node_view(n) == (SpecExprNode {
            start: n.location.start as int,
            end: n.location.end as int,
            expr: expr_view(n.node),
        }),
{
}

/// The views of a list of one expression node.
pub proof fn lemma_single_node_view(s: Seq<ExpressionNode>)
    requires
        s.len() == 1,
    ensures
        expr_nodes_view(s, 1) == seq![expr_node_view(s[0])],
{
    assert(expr_nodes_view(s, 0) =~= Seq::<SpecExprNode>::empty());
    assert(expr_nodes_view(s, 1) =~= seq![expr_node_view(s[0])]);
}

impl<'source> CallExpression<'source> {
    /// The callee, as the specifications see it.
    pub closed spec fn spec_callee(&self) -> ExpressionNode<'source> {
        *self.callee
    }

    /// The arguments, as the specifications see them.
    pub closed spec fn spec_arguments(&self) -> Seq<ExpressionNode<'source>> {
        self.arguments@
    }

    /// The callee.
    pub fn callee(&self) -> (c: &ExpressionNode<'source>)
        ensures
            *c == self.spec_callee(),
    {
        &self.callee
    }

    /// The arguments.
    pub fn arguments(&self) -> (a: &[ExpressionNode<'source>])
        ensures
            a@ == self.spec_arguments(),
    {
        self.arguments.as_slice()
    }
}

impl<'source> VarUseExpression<'source> {
    /// The name of the variable, as the specifications see it.
    pub closed spec fn spec_name(&self) -> IdentifierNode<'source> {
        self.name
    }

    /// The name of the variable.
    pub fn name(&self) -> (n: &IdentifierNode<'source>)
        ensures
            *n == self.spec_name(),
    {
        &self.name
    }
}

impl LiteralExpression {
    /// The value, as the specifications see it.
    pub closed spec fn spec_value(&self) -> Value {
        self.value
    }

    /// The value.
    pub fn value(&self) -> (v: &Value)
        ensures
            *v == self.spec_value(),
    {
        &self.value
    }
}

/// What the constructors store is what the getters give back.
pub proof fn lemma_expression_parts(e: Expression)
    ensures
        e matches Expression::Call(c) ==> expr_view(e) == SpecExpr::Call(
            Box::new(expr_node_view(c.spec_callee())),
            expr_nodes_view(c.spec_arguments(), c.spec_arguments().len() as int),
        ),
        e matches Expression::VarUse(v) ==> expr_view(e) == SpecExpr::VarUse(
            v.spec_name().location.start as int,
            v.spec_name().location.end as int,
            v.spec_name().node.name@,
        ),
{
}

} // verus!
