//! The syntax-tree printer: draws expressions, statements and modules as trees.
use vstd::prelude::*;
use termtree::Tree;
use crate::compiler::frontend::ast::expr::{Expr, LiteralExpr};
use crate::compiler::frontend::ast::module::Module;
use crate::compiler::frontend::ast::node::AstNode;
use crate::compiler::frontend::ast::qualified_name::part_texts;
use crate::compiler::frontend::ast::stmt::{FunParameter, FunStmt, Stmt, StructStmtField};
use crate::compiler::frontend::ast::expr::CreateStructInitializer;
use crate::compiler::frontend::ast::tree::{
    LabelTree, append_shown, default_style, leaf, new_shown, push_shown, relabel, shows_leaves, tree_label, tree_render,
    tree_root, tree_shows, tree_text,
};
use crate::compiler::frontend::lex::token::token_text;
use crate::compiler::infra::source_span::SourceSpan;
use crate::compiler::model::types::Type;
use crate::text::{
    join_with, owned, push_signed_decimal, push_str, signed_decimal, str_debug, str_debug_text,
};

verus! {

/// Prints syntax trees, with or without locations and types.
pub struct AstPrinter {
    print_locations: bool,
    print_types: bool,
}

impl AstPrinter {
    /// Whether locations are printed, in specifications.
    pub closed spec fn spec_print_locations(&self) -> bool {
        self.print_locations
    }

    /// Whether types are printed, in specifications.
    pub closed spec fn spec_print_types(&self) -> bool {
        self.print_types
    }

    /// A printer that prints locations and not types.
    pub fn new() -> (p: Self)
        ensures
            p.spec_print_locations(),
            !p.spec_print_types(),
    {
        Self { print_locations: true, print_types: false }
    }

    /// The printer, printing types or not as `on` says.
    pub fn with_types(self, on: bool) -> (p: Self)
        ensures
            p.spec_print_types() == on,
            p.spec_print_locations() == self.spec_print_locations(),
    {
        let mut p = self;
        p.print_types = on;
        p
    }

    /// The printer, printing locations or not as `on` says.
    pub fn with_locations(self, on: bool) -> (p: Self)
        ensures
            p.spec_print_locations() == on,
            p.spec_print_types() == self.spec_print_types(),
    {
        let mut p = self;
        p.print_locations = on;
        p
    }
}

impl Default for AstPrinter {
    fn default() -> (p: Self)
        ensures
            p.spec_print_locations(),
            !p.spec_print_types(),
    {
        Self::new()
    }
}

/// How the location of a node is shown after its label: five spaces, then its start and
/// length in bytes, as `[start+length]`.
pub open spec fn location_suffix(loc: SourceSpan) -> Seq<char> {
    "     ["@ + signed_decimal(loc.start_byte as int) + "+"@ + signed_decimal(
        loc.end_byte - loc.start_byte,
    ) + "]"@
}

/// How the type of a node is shown after its label and location: `: ` and the type when
/// `p` prints types and the type is known, and nothing otherwise.
pub open spec fn type_suffix(p: AstPrinter, ty: Type) -> Seq<char> {
    if p.spec_print_types() && !(ty.spec_kind() is Unknown) {
        ": "@ + ty.type_text()
    } else {
        Seq::empty()
    }
}

/// The label of a node: `label`, then its location when `p` prints locations, then its
/// type when `p` prints types and the type is known.
pub open spec fn located_label(p: AstPrinter, label: Seq<char>, ty: Type, loc: SourceSpan) -> Seq<
    char,
> {
    label + (if p.spec_print_locations() {
        location_suffix(loc)
    } else {
        Seq::empty()
    }) + type_suffix(p, ty)
}

/// `t` with its label extended by the location and type of a node (see `located_label`).
pub open spec fn located(p: AstPrinter, t: LabelTree, ty: Type, loc: SourceSpan) -> LabelTree {
    LabelTree { root: located_label(p, t.root, ty, loc), leaves: t.leaves }
}


/// A printer that prints neither locations nor types leaves every label as it is.
pub proof fn law_plain_printer_labels(p: AstPrinter, t: LabelTree, ty: Type, loc: SourceSpan)
    requires
        !p.spec_print_locations(),
        !p.spec_print_types(),
    ensures
        located(p, t, ty, loc) == t,
{
}

/// `t` with `prefix` before its label.
pub open spec fn prefixed(prefix: Seq<char>, t: LabelTree) -> LabelTree {
    LabelTree { root: prefix + t.root, leaves: t.leaves }
}

/// How a literal is shown: as `Debug` shows it (a floating-point literal by its text).
pub open spec fn literal_text(l: LiteralExpr) -> Seq<char> {
    match l {
        LiteralExpr::Str(s) => "Str("@ + str_debug_text(s@) + ")"@,
        LiteralExpr::F64(x) => "F64("@ + x@ + ")"@,
        LiteralExpr::I64(n) => "I64("@ + signed_decimal(n as int) + ")"@,
        LiteralExpr::Bool(b) => if b {
            "Bool(true)"@
        } else {
            "Bool(false)"@
        },
        LiteralExpr::Unit => "Unit"@,
    }
}

/// The tree drawn for an expression, with its location and type.
pub open spec fn expr_label(p: AstPrinter, e: AstNode<Expr>) -> LabelTree
    decreases e, 1nat,
{
    located(p, expr_shape(p, e), e.ty, e.location)
}

/// The tree drawn for an expression, before its location and type are added.
pub open spec fn expr_shape(p: AstPrinter, e: AstNode<Expr>) -> LabelTree
    decreases e, 0nat,
{
    match *e.data {
        Expr::Literal(l) => leaf(literal_text(l)),
        Expr::Variable(v) => leaf(
            "Read '"@ + join_with(part_texts(v.name.data.parts@), "::"@) + "'"@,
        ),
        Expr::Unary(u) => LabelTree {
            root: u.operator.inner.value@,
            leaves: seq![expr_label(p, u.right)],
        },
        Expr::Binary(b) => LabelTree {
            root: b.operator.inner.value@,
            leaves: seq![expr_label(p, b.left), expr_label(p, b.right)],
        },
        Expr::Assign(a) => LabelTree {
            root: join_with(part_texts(a.destination.data.parts@), "::"@) + " = "@,
            leaves: seq![expr_label(p, a.value)],
        },
        Expr::Call(c) => LabelTree {
            root: "Call"@,
            leaves: seq![expr_label(p, c.callee)] + exprs_labels(p, c.arguments@),
        },
        Expr::Get(g) => LabelTree {
            root: "Get "@ + g.name.inner.value@,
            leaves: seq![expr_label(p, g.object)],
        },
        Expr::SetField(s) => LabelTree {
            root: "Set "@ + s.name.inner.value@,
            leaves: seq![expr_label(p, s.object), expr_label(p, s.value)],
        },
        Expr::Block(b) => LabelTree {
            root: "Block"@,
            leaves: stmts_labels(p, b.stmts@).push(expr_label(p, b.result_expression)),
        },
        Expr::If(i) => LabelTree {
            root: "If"@,
            leaves: seq![expr_label(p, i.condition), expr_label(p, i.then_expr)] + match i.else_expr {
                Some(x) => seq![expr_label(p, x)],
                None => Seq::empty(),
            },
        },
        Expr::Return(r) => LabelTree { root: "Return"@, leaves: seq![expr_label(p, r.expression)] },
        Expr::CreateStruct(c) => LabelTree {
            root: "Create struct"@,
            leaves: seq![expr_label(p, c.type_expression)] + inits_labels(
                p,
                c.field_initializers@,
            ),
        },
    }
}

/// The trees drawn for a sequence of expressions.
pub open spec fn exprs_labels(p: AstPrinter, es: Seq<AstNode<Expr>>) -> Seq<LabelTree>
    decreases es, 0nat,
{
    if es.len() == 0 {
        Seq::empty()
    } else {
        exprs_labels(p, es.drop_last()).push(expr_label(p, es.last()))
    }
}

/// The trees drawn for the initializers of a struct value: each that of its expression,
/// with the field's name before its label.
pub open spec fn inits_labels(p: AstPrinter, fs: Seq<CreateStructInitializer>) -> Seq<LabelTree>
    decreases fs, 0nat,
{
    if fs.len() == 0 {
        Seq::empty()
    } else {
        inits_labels(p, fs.drop_last()).push(
            prefixed(fs.last().field_name.inner.value@ + ": "@, expr_label(p, fs.last().expression)),
        )
    }
}

/// The tree drawn for a statement.
pub open spec fn stmt_label(p: AstPrinter, s: AstNode<Stmt>) -> LabelTree
    decreases s, 0nat,
{
    match *s.data {
        Stmt::Expression(x) => expr_label(p, x.expression),
        Stmt::Let(l) => located(
            p,
            LabelTree {
                root: "Let '"@ + token_text(l.name.inner.token_type, l.name.inner.value@) + "'"@,
                leaves: seq![expr_label(p, l.expression)],
            },
            s.ty,
            s.location,
        ),
        Stmt::Fun(f) => located(p, fun_label(p, f), s.ty, s.location),
        Stmt::Struct(st) => located(
            p,
            LabelTree {
                root: "Struct '"@ + st.name.inner.value@ + "'"@,
                leaves: fields_labels(p, st.fields@),
            },
            s.ty,
            s.location,
        ),
        Stmt::Impl(i) => located(
            p,
            LabelTree {
                root: "Impl '"@ + i.name.inner.value@ + "'"@,
                leaves: methods_labels(p, i.methods@),
            },
            s.ty,
            s.location,
        ),
        Stmt::Trait(t) => leaf("Trait '"@ + t.name.inner.value@ + "'"@),
        Stmt::While(w) => located(
            p,
            LabelTree {
                root: "While"@,
                leaves: seq![expr_label(p, w.condition), stmt_label(p, w.body_stmt)],
            },
            s.ty,
            s.location,
        ),
    }
}

/// The trees drawn for a sequence of statements.
pub open spec fn stmts_labels(p: AstPrinter, ss: Seq<AstNode<Stmt>>) -> Seq<LabelTree>
    decreases ss, 0nat,
{
    if ss.len() == 0 {
        Seq::empty()
    } else {
        stmts_labels(p, ss.drop_last()).push(stmt_label(p, ss.last()))
    }
}

/// The names of the parameters of a function.
pub open spec fn param_names(ps: Seq<FunParameter>) -> Seq<Seq<char>> {
    ps.map_values(|q: FunParameter| q.name.inner.value@)
}

/// The tree drawn for a function declaration: its signature, a subtree for each
/// parameter and one for the return type, then the subtrees of its body.
pub open spec fn fun_label(p: AstPrinter, f: FunStmt) -> LabelTree
    decreases f, 0nat,
{
    LabelTree {
        root: "Declare fun '"@ + f.name.inner.value@ + "("@ + join_with(
            param_names(f.parameters@),
            ", "@,
        ) + ")'"@,
        leaves: params_labels(p, f.parameters@).push(
            prefixed("Return type: "@, expr_label(p, f.return_type)),
        ) + expr_label(p, f.body).leaves,
    }
}

/// The trees drawn for the parameters of a function.
pub open spec fn params_labels(p: AstPrinter, ps: Seq<FunParameter>) -> Seq<LabelTree>
    decreases ps, 0nat,
{
    if ps.len() == 0 {
        Seq::empty()
    } else {
        params_labels(p, ps.drop_last()).push(
            LabelTree {
                root: "Param "@ + ps.last().name.inner.value@,
                leaves: seq![expr_label(p, ps.last().type_expression)],
            },
        )
    }
}

/// The trees drawn for the methods of an `impl`.
pub open spec fn methods_labels(p: AstPrinter, ms: Seq<AstNode<FunStmt>>) -> Seq<LabelTree>
    decreases ms, 0nat,
{
    if ms.len() == 0 {
        Seq::empty()
    } else {
        methods_labels(p, ms.drop_last()).push(prefixed("Method: "@, fun_label(p, *ms.last().data)))
    }
}

/// The trees drawn for the fields of a struct declaration.
pub open spec fn fields_labels(p: AstPrinter, fs: Seq<AstNode<StructStmtField>>) -> Seq<LabelTree>
    decreases fs, 0nat,
{
    if fs.len() == 0 {
        Seq::empty()
    } else {
        fields_labels(p, fs.drop_last()).push(
            located(
                p,
                LabelTree {
                    root: "Field "@ + fs.last().data.name.inner.value@,
                    leaves: seq![expr_label(p, fs.last().data.type_expression)],
                },
                fs.last().ty,
                fs.last().location,
            ),
        )
    }
}

/// The tree drawn for a module: `Module`, with a subtree for each statement.
pub open spec fn module_label(p: AstPrinter, m: AstNode<Module>) -> LabelTree {
    LabelTree { root: "Module"@, leaves: stmts_labels(p, m.data.stmts@) }
}


/// `with` is `without` with the location suffix of `loc` put in after `a`: `with` is
/// `a`, the suffix and `b`, and `without` is `a` and `b`.
pub open spec fn strips_location(with: Seq<char>, without: Seq<char>, a: Seq<char>, b: Seq<char>, loc: SourceSpan) -> bool {
    with == a + location_suffix(loc) + b && without == a + b
}

/// `without` is the label `with` with its location suffix deleted, or the same label when
/// it has none.
pub open spec fn label_drops_location(with: Seq<char>, without: Seq<char>) -> bool {
    with == without || exists|a: Seq<char>, b: Seq<char>, loc: SourceSpan|
        #[trigger] strips_location(with, without, a, b, loc)
}

/// `without` is the tree `with`, node for node, with the location suffix of each label
/// deleted.
pub open spec fn drops_locations(with: LabelTree, without: LabelTree) -> bool
    decreases with,
{
    &&& label_drops_location(with.root, without.root)
    &&& with.leaves.len() == without.leaves.len()
    &&& forall|i: int|
        0 <= i < with.leaves.len() ==> drops_locations(#[trigger] with.leaves[i], without.leaves[i])
}

/// The trees `without` are the trees `with`, one for one, with the location suffixes
/// deleted.
pub open spec fn all_drop_locations(with: Seq<LabelTree>, without: Seq<LabelTree>) -> bool {
    &&& with.len() == without.len()
    &&& forall|i: int| 0 <= i < with.len() ==> drops_locations(#[trigger] with[i], without[i])
}

proof fn lemma_drop_push(ws: Seq<LabelTree>, wos: Seq<LabelTree>, w: LabelTree, wo: LabelTree)
    requires
        all_drop_locations(ws, wos),
        drops_locations(w, wo),
    ensures
        all_drop_locations(ws.push(w), wos.push(wo)),
{
    assert forall|i: int| 0 <= i < ws.len() + 1 implies drops_locations(#[trigger] ws.push(w)[i], wos.push(wo)[i]) by {
        if i < ws.len() {
            assert(ws.push(w)[i] == ws[i] && wos.push(wo)[i] == wos[i]);
        }
    }
}

proof fn lemma_drop_concat(ws: Seq<LabelTree>, wos: Seq<LabelTree>, xs: Seq<LabelTree>, xos: Seq<LabelTree>)
    requires
        all_drop_locations(ws, wos),
        all_drop_locations(xs, xos),
    ensures
        all_drop_locations(ws + xs, wos + xos),
{
    assert forall|i: int| 0 <= i < ws.len() + xs.len() implies drops_locations(#[trigger] (ws + xs)[i], (wos + xos)[i]) by {
        if i < ws.len() {
            assert((ws + xs)[i] == ws[i] && (wos + xos)[i] == wos[i]);
        } else {
            assert((ws + xs)[i] == xs[i - ws.len()] && (wos + xos)[i] == xos[i - ws.len()]);
        }
    }
}

proof fn lemma_drop_leaves(w: LabelTree, wo: LabelTree)
    requires
        drops_locations(w, wo),
    ensures
        all_drop_locations(w.leaves, wo.leaves),
{
}

proof fn lemma_drop_node(root: Seq<char>, ws: Seq<LabelTree>, wos: Seq<LabelTree>)
    requires
        all_drop_locations(ws, wos),
    ensures
        drops_locations(LabelTree { root, leaves: ws }, LabelTree { root, leaves: wos }),
{
}

proof fn lemma_drop_prefixed(prefix: Seq<char>, w: LabelTree, wo: LabelTree)
    requires
        drops_locations(w, wo),
    ensures
        drops_locations(prefixed(prefix, w), prefixed(prefix, wo)),
{
    if w.root != wo.root {
        let (a, b, loc) = choose|a: Seq<char>, b: Seq<char>, loc: SourceSpan| #[trigger] strips_location(w.root, wo.root, a, b, loc);
        assert(strips_location(prefix + w.root, prefix + wo.root, prefix + a, b, loc)) by {
            assert(prefix + w.root =~= (prefix + a) + location_suffix(loc) + b);
            assert(prefix + wo.root =~= (prefix + a) + b);
        }
    }
    assert forall|i: int| 0 <= i < w.leaves.len() implies drops_locations(#[trigger] prefixed(prefix, w).leaves[i], prefixed(prefix, wo).leaves[i]) by {
    }
}

proof fn lemma_drop_located(p: AstPrinter, q: AstPrinter, root: Seq<char>, ws: Seq<LabelTree>, wos: Seq<LabelTree>, ty: Type, loc: SourceSpan)
    requires
        p.spec_print_locations(),
        !q.spec_print_locations(),
        p.spec_print_types() == q.spec_print_types(),
        all_drop_locations(ws, wos),
    ensures
        drops_locations(
            located(p, LabelTree { root, leaves: ws }, ty, loc),
            located(q, LabelTree { root, leaves: wos }, ty, loc),
        ),
{
    let b = type_suffix(p, ty);
    assert(type_suffix(q, ty) == b);
    assert(strips_location(located_label(p, root, ty, loc), located_label(q, root, ty, loc), root, b, loc)) by {
        assert(located_label(q, root, ty, loc) =~= root + b);
    }
}

/// The tree drawn for an expression without locations is the one drawn with them, each
/// location suffix deleted.
proof fn lemma_expr_drops(p: AstPrinter, q: AstPrinter, e: AstNode<Expr>)
    requires
        p.spec_print_locations(),
        !q.spec_print_locations(),
        p.spec_print_types() == q.spec_print_types(),
    ensures
        drops_locations(expr_label(p, e), expr_label(q, e)),
    decreases e, 1nat,
{
    lemma_shape_drops(p, q, e);
    lemma_drop_located(p, q, expr_shape(p, e).root, expr_shape(p, e).leaves, expr_shape(q, e).leaves, e.ty, e.location);
}

proof fn lemma_one(w: LabelTree, wo: LabelTree)
    requires
        drops_locations(w, wo),
    ensures
        all_drop_locations(seq![w], seq![wo]),
{
    lemma_drop_push(Seq::empty(), Seq::empty(), w, wo);
    assert(Seq::<LabelTree>::empty().push(w) =~= seq![w]);
    assert(Seq::<LabelTree>::empty().push(wo) =~= seq![wo]);
}

proof fn lemma_two(w: LabelTree, wo: LabelTree, x: LabelTree, xo: LabelTree)
    requires
        drops_locations(w, wo),
        drops_locations(x, xo),
    ensures
        all_drop_locations(seq![w, x], seq![wo, xo]),
{
    lemma_one(w, wo);
    lemma_drop_push(seq![w], seq![wo], x, xo);
    assert(seq![w].push(x) =~= seq![w, x]);
    assert(seq![wo].push(xo) =~= seq![wo, xo]);
}

proof fn lemma_shape_drops(p: AstPrinter, q: AstPrinter, e: AstNode<Expr>)
    requires
        p.spec_print_locations(),
        !q.spec_print_locations(),
        p.spec_print_types() == q.spec_print_types(),
    ensures
        expr_shape(p, e).root == expr_shape(q, e).root,
        all_drop_locations(expr_shape(p, e).leaves, expr_shape(q, e).leaves),
    decreases e, 0nat,
{
    match *e.data {
        Expr::Literal(l) => {},
        Expr::Variable(v) => {},
        Expr::Unary(u) => {
            lemma_expr_drops(p, q, u.right);
            lemma_one(expr_label(p, u.right), expr_label(q, u.right));
        },
        Expr::Binary(b) => {
            lemma_expr_drops(p, q, b.left);
            lemma_expr_drops(p, q, b.right);
            lemma_two(expr_label(p, b.left), expr_label(q, b.left), expr_label(p, b.right), expr_label(q, b.right));
        },
        Expr::Assign(a) => {
            lemma_expr_drops(p, q, a.value);
            lemma_one(expr_label(p, a.value), expr_label(q, a.value));
        },
        Expr::Call(c) => {
            lemma_expr_drops(p, q, c.callee);
            lemma_one(expr_label(p, c.callee), expr_label(q, c.callee));
            lemma_exprs_drop(p, q, c.arguments@);
            lemma_drop_concat(seq![expr_label(p, c.callee)], seq![expr_label(q, c.callee)], exprs_labels(p, c.arguments@), exprs_labels(q, c.arguments@));
        },
        Expr::Get(g) => {
            lemma_expr_drops(p, q, g.object);
            lemma_one(expr_label(p, g.object), expr_label(q, g.object));
        },
        Expr::SetField(x) => {
            lemma_expr_drops(p, q, x.object);
            lemma_expr_drops(p, q, x.value);
            lemma_two(expr_label(p, x.object), expr_label(q, x.object), expr_label(p, x.value), expr_label(q, x.value));
        },
        Expr::Block(b) => {
            lemma_stmts_drop(p, q, b.stmts@);
            lemma_expr_drops(p, q, b.result_expression);
            lemma_drop_push(stmts_labels(p, b.stmts@), stmts_labels(q, b.stmts@), expr_label(p, b.result_expression), expr_label(q, b.result_expression));
        },
        Expr::If(i) => {
            lemma_expr_drops(p, q, i.condition);
            lemma_expr_drops(p, q, i.then_expr);
            lemma_two(expr_label(p, i.condition), expr_label(q, i.condition), expr_label(p, i.then_expr), expr_label(q, i.then_expr));
            match i.else_expr {
                Some(x) => {
                    lemma_expr_drops(p, q, x);
                    lemma_one(expr_label(p, x), expr_label(q, x));
                    lemma_drop_concat(
                        seq![expr_label(p, i.condition), expr_label(p, i.then_expr)],
                        seq![expr_label(q, i.condition), expr_label(q, i.then_expr)],
                        seq![expr_label(p, x)],
                        seq![expr_label(q, x)],
                    );
                },
                None => {
                    lemma_drop_concat(
                        seq![expr_label(p, i.condition), expr_label(p, i.then_expr)],
                        seq![expr_label(q, i.condition), expr_label(q, i.then_expr)],
                        Seq::empty(),
                        Seq::empty(),
                    );
                },
            }
        },
        Expr::Return(r) => {
            lemma_expr_drops(p, q, r.expression);
            lemma_one(expr_label(p, r.expression), expr_label(q, r.expression));
        },
        Expr::CreateStruct(c) => {
            lemma_expr_drops(p, q, c.type_expression);
            lemma_one(expr_label(p, c.type_expression), expr_label(q, c.type_expression));
            lemma_inits_drop(p, q, c.field_initializers@);
            lemma_drop_concat(
                seq![expr_label(p, c.type_expression)],
                seq![expr_label(q, c.type_expression)],
                inits_labels(p, c.field_initializers@),
                inits_labels(q, c.field_initializers@),
            );
        },
    }
}

proof fn lemma_exprs_drop(p: AstPrinter, q: AstPrinter, es: Seq<AstNode<Expr>>)
    requires
        p.spec_print_locations(),
        !q.spec_print_locations(),
        p.spec_print_types() == q.spec_print_types(),
    ensures
        all_drop_locations(exprs_labels(p, es), exprs_labels(q, es)),
    decreases es, 0nat,
{
    if es.len() > 0 {
        lemma_exprs_drop(p, q, es.drop_last());
        lemma_expr_drops(p, q, es.last());
        lemma_drop_push(exprs_labels(p, es.drop_last()), exprs_labels(q, es.drop_last()), expr_label(p, es.last()), expr_label(q, es.last()));
    }
}

proof fn lemma_inits_drop(p: AstPrinter, q: AstPrinter, fs: Seq<CreateStructInitializer>)
    requires
        p.spec_print_locations(),
        !q.spec_print_locations(),
        p.spec_print_types() == q.spec_print_types(),
    ensures
        all_drop_locations(inits_labels(p, fs), inits_labels(q, fs)),
    decreases fs, 0nat,
{
    if fs.len() > 0 {
        lemma_inits_drop(p, q, fs.drop_last());
        lemma_expr_drops(p, q, fs.last().expression);
        let prefix = fs.last().field_name.inner.value@ + ": "@;
        lemma_drop_prefixed(prefix, expr_label(p, fs.last().expression), expr_label(q, fs.last().expression));
        lemma_drop_push(
            inits_labels(p, fs.drop_last()),
            inits_labels(q, fs.drop_last()),
            prefixed(prefix, expr_label(p, fs.last().expression)),
            prefixed(prefix, expr_label(q, fs.last().expression)),
        );
    }
}

proof fn lemma_stmt_drops(p: AstPrinter, q: AstPrinter, s: AstNode<Stmt>)
    requires
        p.spec_print_locations(),
        !q.spec_print_locations(),
        p.spec_print_types() == q.spec_print_types(),
    ensures
        drops_locations(stmt_label(p, s), stmt_label(q, s)),
    decreases s, 0nat,
{
    match *s.data {
        Stmt::Expression(x) => {
            lemma_expr_drops(p, q, x.expression);
        },
        Stmt::Let(l) => {
            lemma_expr_drops(p, q, l.expression);
            lemma_one(expr_label(p, l.expression), expr_label(q, l.expression));
            lemma_drop_located(
                p,
                q,
                "Let '"@ + token_text(l.name.inner.token_type, l.name.inner.value@) + "'"@,
                seq![expr_label(p, l.expression)],
                seq![expr_label(q, l.expression)],
                s.ty,
                s.location,
            );
        },
        Stmt::Fun(f) => {
            lemma_fun_drops(p, q, f);
            lemma_drop_leaves(fun_label(p, f), fun_label(q, f));
            lemma_drop_located(p, q, fun_label(p, f).root, fun_label(p, f).leaves, fun_label(q, f).leaves, s.ty, s.location);
        },
        Stmt::Struct(st) => {
            lemma_fields_drop(p, q, st.fields@);
            lemma_drop_located(
                p,
                q,
                "Struct '"@ + st.name.inner.value@ + "'"@,
                fields_labels(p, st.fields@),
                fields_labels(q, st.fields@),
                s.ty,
                s.location,
            );
        },
        Stmt::Impl(i) => {
            lemma_methods_drop(p, q, i.methods@);
            lemma_drop_located(
                p,
                q,
                "Impl '"@ + i.name.inner.value@ + "'"@,
                methods_labels(p, i.methods@),
                methods_labels(q, i.methods@),
                s.ty,
                s.location,
            );
        },
        Stmt::Trait(t) => {},
        Stmt::While(w) => {
            lemma_expr_drops(p, q, w.condition);
            lemma_stmt_drops(p, q, w.body_stmt);
            lemma_two(expr_label(p, w.condition), expr_label(q, w.condition), stmt_label(p, w.body_stmt), stmt_label(q, w.body_stmt));
            lemma_drop_located(
                p,
                q,
                "While"@,
                seq![expr_label(p, w.condition), stmt_label(p, w.body_stmt)],
                seq![expr_label(q, w.condition), stmt_label(q, w.body_stmt)],
                s.ty,
                s.location,
            );
        },
    }
}

proof fn lemma_stmts_drop(p: AstPrinter, q: AstPrinter, ss: Seq<AstNode<Stmt>>)
    requires
        p.spec_print_locations(),
        !q.spec_print_locations(),
        p.spec_print_types() == q.spec_print_types(),
    ensures
        all_drop_locations(stmts_labels(p, ss), stmts_labels(q, ss)),
    decreases ss, 0nat,
{
    if ss.len() > 0 {
        lemma_stmts_drop(p, q, ss.drop_last());
        lemma_stmt_drops(p, q, ss.last());
        lemma_drop_push(stmts_labels(p, ss.drop_last()), stmts_labels(q, ss.drop_last()), stmt_label(p, ss.last()), stmt_label(q, ss.last()));
    }
}

proof fn lemma_fun_drops(p: AstPrinter, q: AstPrinter, f: FunStmt)
    requires
        p.spec_print_locations(),
        !q.spec_print_locations(),
        p.spec_print_types() == q.spec_print_types(),
    ensures
        drops_locations(fun_label(p, f), fun_label(q, f)),
        fun_label(p, f).root == fun_label(q, f).root,
    decreases f, 0nat,
{
    lemma_params_drop(p, q, f.parameters@);
    lemma_expr_drops(p, q, f.return_type);
    lemma_drop_prefixed("Return type: "@, expr_label(p, f.return_type), expr_label(q, f.return_type));
    lemma_drop_push(
        params_labels(p, f.parameters@),
        params_labels(q, f.parameters@),
        prefixed("Return type: "@, expr_label(p, f.return_type)),
        prefixed("Return type: "@, expr_label(q, f.return_type)),
    );
    lemma_expr_drops(p, q, f.body);
    lemma_drop_leaves(expr_label(p, f.body), expr_label(q, f.body));
    lemma_drop_concat(
        params_labels(p, f.parameters@).push(prefixed("Return type: "@, expr_label(p, f.return_type))),
        params_labels(q, f.parameters@).push(prefixed("Return type: "@, expr_label(q, f.return_type))),
        expr_label(p, f.body).leaves,
        expr_label(q, f.body).leaves,
    );
    lemma_drop_node(
        fun_label(p, f).root,
        fun_label(p, f).leaves,
        fun_label(q, f).leaves,
    );
}

proof fn lemma_params_drop(p: AstPrinter, q: AstPrinter, ps: Seq<FunParameter>)
    requires
        p.spec_print_locations(),
        !q.spec_print_locations(),
        p.spec_print_types() == q.spec_print_types(),
    ensures
        all_drop_locations(params_labels(p, ps), params_labels(q, ps)),
    decreases ps, 0nat,
{
    if ps.len() > 0 {
        lemma_params_drop(p, q, ps.drop_last());
        lemma_expr_drops(p, q, ps.last().type_expression);
        lemma_one(expr_label(p, ps.last().type_expression), expr_label(q, ps.last().type_expression));
        let root = "Param "@ + ps.last().name.inner.value@;
        lemma_drop_node(root, seq![expr_label(p, ps.last().type_expression)], seq![expr_label(q, ps.last().type_expression)]);
        lemma_drop_push(
            params_labels(p, ps.drop_last()),
            params_labels(q, ps.drop_last()),
            LabelTree { root, leaves: seq![expr_label(p, ps.last().type_expression)] },
            LabelTree { root, leaves: seq![expr_label(q, ps.last().type_expression)] },
        );
    }
}

proof fn lemma_methods_drop(p: AstPrinter, q: AstPrinter, ms: Seq<AstNode<FunStmt>>)
    requires
        p.spec_print_locations(),
        !q.spec_print_locations(),
        p.spec_print_types() == q.spec_print_types(),
    ensures
        all_drop_locations(methods_labels(p, ms), methods_labels(q, ms)),
    decreases ms, 0nat,
{
    if ms.len() > 0 {
        lemma_methods_drop(p, q, ms.drop_last());
        lemma_fun_drops(p, q, *ms.last().data);
        lemma_drop_prefixed("Method: "@, fun_label(p, *ms.last().data), fun_label(q, *ms.last().data));
        lemma_drop_push(
            methods_labels(p, ms.drop_last()),
            methods_labels(q, ms.drop_last()),
            prefixed("Method: "@, fun_label(p, *ms.last().data)),
            prefixed("Method: "@, fun_label(q, *ms.last().data)),
        );
    }
}

proof fn lemma_fields_drop(p: AstPrinter, q: AstPrinter, fs: Seq<AstNode<StructStmtField>>)
    requires
        p.spec_print_locations(),
        !q.spec_print_locations(),
        p.spec_print_types() == q.spec_print_types(),
    ensures
        all_drop_locations(fields_labels(p, fs), fields_labels(q, fs)),
    decreases fs, 0nat,
{
    if fs.len() > 0 {
        lemma_fields_drop(p, q, fs.drop_last());
        let f = fs.last();
        lemma_expr_drops(p, q, f.data.type_expression);
        lemma_one(expr_label(p, f.data.type_expression), expr_label(q, f.data.type_expression));
        let root = "Field "@ + f.data.name.inner.value@;
        lemma_drop_located(
            p,
            q,
            root,
            seq![expr_label(p, f.data.type_expression)],
            seq![expr_label(q, f.data.type_expression)],
            f.ty,
            f.location,
        );
        lemma_drop_push(
            fields_labels(p, fs.drop_last()),
            fields_labels(q, fs.drop_last()),
            located(p, LabelTree { root, leaves: seq![expr_label(p, f.data.type_expression)] }, f.ty, f.location),
            located(q, LabelTree { root, leaves: seq![expr_label(q, f.data.type_expression)] }, f.ty, f.location),
        );
    }
}

/// Printing an expression without locations draws the tree drawn with them, node for
/// node, with the location suffix `     [start+length]` of each label deleted; the types
/// are printed as the printers say, here alike.
pub proof fn law_expr_without_locations(p: AstPrinter, q: AstPrinter, e: AstNode<Expr>)
    requires
        p.spec_print_locations(),
        !q.spec_print_locations(),
        p.spec_print_types() == q.spec_print_types(),
    ensures
        drops_locations(expr_label(p, e), expr_label(q, e)),
{
    lemma_expr_drops(p, q, e);
}

/// Printing a module without locations draws the tree drawn with them, node for node,
/// with the location suffix of each label deleted.
pub proof fn law_module_without_locations(p: AstPrinter, q: AstPrinter, m: AstNode<Module>)
    requires
        p.spec_print_locations(),
        !q.spec_print_locations(),
        p.spec_print_types() == q.spec_print_types(),
    ensures
        drops_locations(module_label(p, m), module_label(q, m)),
{
    lemma_stmts_drop(p, q, m.data.stmts@);
    lemma_drop_node("Module"@, stmts_labels(p, m.data.stmts@), stmts_labels(q, m.data.stmts@));
}

/// A printer is its two settings: printers that print locations and types alike are the
/// same printer, so `AstPrinter::new().with_locations(true)` prints as `AstPrinter::new()`.
pub proof fn law_printer_settings_determine(p: AstPrinter, q: AstPrinter)
    requires
        p.spec_print_locations() == q.spec_print_locations(),
        p.spec_print_types() == q.spec_print_types(),
    ensures
        p == q,
{
}

impl AstPrinter {
    /// `tree`, drawn as `m`, with the location and type of a node added to its label.
    fn add_location(
        &self,
        tree: Tree<String>,
        ty: &Type,
        loc: &SourceSpan,
        Ghost(m): Ghost<LabelTree>,
    ) -> (t: Tree<String>)
        requires
            tree_shows(tree, m),
        ensures
            tree_shows(t, located(*self, m, *ty, *loc)),
    {
        let mut label = tree_label(&tree);
        if self.print_locations {
            push_str(&mut label, "     [");
            push_signed_decimal(&mut label, loc.start_byte as i64);
            push_str(&mut label, "+");
            push_signed_decimal(&mut label, loc.end_byte as i64 - loc.start_byte as i64);
            push_str(&mut label, "]");
        }
        if self.print_types && !ty.is_unknown() {
            push_str(&mut label, ": ");
            ty.push_display(&mut label);
        }
        assert(label@ =~= located_label(*self, m.root, *ty, *loc));
        relabel(tree, label, Ghost(m))
    }

    /// `tree`, drawn as `m`, with `prefix` before its label.
    fn prefix_label(&self, tree: Tree<String>, prefix: &str, Ghost(m): Ghost<LabelTree>) -> (t: Tree<
        String,
    >)
        requires
            tree_shows(tree, m),
        ensures
            tree_shows(t, prefixed(prefix@, m)),
    {
        let mut label = owned(prefix);
        let old_label = tree_label(&tree);
        push_str(&mut label, old_label.as_str());
        relabel(tree, label, Ghost(m))
    }

    /// How a literal is shown (see `literal_text`).
    fn literal_to_string(&self, l: &LiteralExpr) -> (s: String)
        ensures
            s@ == literal_text(*l),
    {
        match l {
            LiteralExpr::Str(x) => {
                let mut s = owned("Str(");
                let d = str_debug(x.as_str());
                push_str(&mut s, d.as_str());
                push_str(&mut s, ")");
                s
            },
            LiteralExpr::F64(x) => {
                let mut s = owned("F64(");
                push_str(&mut s, x.as_str());
                push_str(&mut s, ")");
                s
            },
            LiteralExpr::I64(n) => {
                let mut s = owned("I64(");
                push_signed_decimal(&mut s, *n);
                push_str(&mut s, ")");
                s
            },
            LiteralExpr::Bool(b) => if *b {
                owned("Bool(true)")
            } else {
                owned("Bool(false)")
            },
            LiteralExpr::Unit => owned("Unit"),
        }
    }

    /// The tree drawn for an expression (see `expr_label`).
    pub fn expr_to_tree(&self, ast: &AstNode<Expr>) -> (t: Tree<String>)
        ensures
            tree_shows(t, expr_label(*self, *ast)),
        decreases ast, 1nat,
    {
        let tree = self.expr_shape_tree(ast);
        self.add_location(tree, &ast.ty, &ast.location, Ghost(expr_shape(*self, *ast)))
    }

    /// The tree drawn for an expression, before its location and type are added.
    fn expr_shape_tree(&self, ast: &AstNode<Expr>) -> (t: Tree<String>)
        ensures
            tree_shows(t, expr_shape(*self, *ast)),
        decreases ast, 0nat,
    {
        let ghost p = *self;
        match &*ast.data {
            Expr::Literal(l) => new_shown(self.literal_to_string(l)),
            Expr::Variable(v) => {
                let mut s = owned("Read '");
                let name = v.name.to_display_string();
                push_str(&mut s, name.as_str());
                push_str(&mut s, "'");
                new_shown(s)
            },
            Expr::Unary(u) => {
                let mut t = new_shown(owned(u.operator.lexeme()));
                push_shown(&mut t, self.expr_to_tree(&u.right), Ghost(Seq::empty()), Ghost(expr_label(p, u.right)));
                t
            },
            Expr::Binary(b) => {
                let mut t = new_shown(owned(b.operator.lexeme()));
                push_shown(&mut t, self.expr_to_tree(&b.left), Ghost(Seq::empty()), Ghost(expr_label(p, b.left)));
                push_shown(&mut t, self.expr_to_tree(&b.right), Ghost(Seq::<LabelTree>::empty().push(expr_label(p, b.left))), Ghost(expr_label(p, b.right)));
                t
            },
            Expr::Assign(a) => {
                let mut s = a.destination.to_display_string();
                push_str(&mut s, " = ");
                let mut t = new_shown(s);
                push_shown(&mut t, self.expr_to_tree(&a.value), Ghost(Seq::empty()), Ghost(expr_label(p, a.value)));
                t
            },
            Expr::Call(c) => {
                let mut t = new_shown(owned("Call"));
                push_shown(&mut t, self.expr_to_tree(&c.callee), Ghost(Seq::empty()), Ghost(expr_label(p, c.callee)));
                self.push_expr_trees(&mut t, &c.arguments, Ghost(Seq::<LabelTree>::empty().push(expr_label(p, c.callee))));
                t
            },
            Expr::Get(g) => {
                let mut s = owned("Get ");
                push_str(&mut s, g.name.lexeme());
                let mut t = new_shown(s);
                push_shown(&mut t, self.expr_to_tree(&g.object), Ghost(Seq::empty()), Ghost(expr_label(p, g.object)));
                t
            },
            Expr::SetField(x) => {
                let mut s = owned("Set ");
                push_str(&mut s, x.name.lexeme());
                let mut t = new_shown(s);
                push_shown(&mut t, self.expr_to_tree(&x.object), Ghost(Seq::empty()), Ghost(expr_label(p, x.object)));
                push_shown(&mut t, self.expr_to_tree(&x.value), Ghost(Seq::<LabelTree>::empty().push(expr_label(p, x.object))), Ghost(expr_label(p, x.value)));
                t
            },
            Expr::Block(b) => {
                let mut t = new_shown(owned("Block"));
                self.push_stmt_trees(&mut t, &b.stmts, Ghost(Seq::empty()));
                assert(Seq::<LabelTree>::empty() + stmts_labels(p, b.stmts@) =~= stmts_labels(p, b.stmts@));
                push_shown(&mut t, self.expr_to_tree(&b.result_expression), Ghost(stmts_labels(p, b.stmts@)), Ghost(expr_label(p, b.result_expression)));
                t
            },
            Expr::If(i) => {
                let mut t = new_shown(owned("If"));
                push_shown(&mut t, self.expr_to_tree(&i.condition), Ghost(Seq::empty()), Ghost(expr_label(p, i.condition)));
                let ghost two = seq![expr_label(p, i.condition), expr_label(p, i.then_expr)];
                push_shown(&mut t, self.expr_to_tree(&i.then_expr), Ghost(Seq::<LabelTree>::empty().push(expr_label(p, i.condition))), Ghost(expr_label(p, i.then_expr)));
                assert(seq![expr_label(p, i.condition)].push(expr_label(p, i.then_expr)) =~= two);
                match &i.else_expr {
                    Some(x) => {
                        push_shown(&mut t, self.expr_to_tree(x), Ghost(two), Ghost(expr_label(p, *x)));
                        assert(two.push(expr_label(p, *x)) =~= two + seq![expr_label(p, *x)]);
                    },
                    None => {
                        assert(two =~= two + Seq::<LabelTree>::empty());
                    },
                }
                t
            },
            Expr::Return(r) => {
                let mut t = new_shown(owned("Return"));
                push_shown(&mut t, self.expr_to_tree(&r.expression), Ghost(Seq::empty()), Ghost(expr_label(p, r.expression)));
                t
            },
            Expr::CreateStruct(c) => {
                let mut t = new_shown(owned("Create struct"));
                push_shown(&mut t, self.expr_to_tree(&c.type_expression), Ghost(Seq::empty()), Ghost(expr_label(p, c.type_expression)));
                self.push_init_trees(&mut t, &c.field_initializers, Ghost(Seq::<LabelTree>::empty().push(expr_label(p, c.type_expression))));
                t
            },
        }
    }

    /// Adds the trees drawn for `es` after the subtrees of `tree`.
    fn push_expr_trees(&self, tree: &mut Tree<String>, es: &Vec<AstNode<Expr>>, Ghost(ms): Ghost<Seq<LabelTree>>)
        requires
            shows_leaves(*old(tree), ms),
        ensures
            tree_root(*final(tree)) == tree_root(*old(tree)),
            default_style(*final(tree)) == default_style(*old(tree)),
            shows_leaves(*final(tree), ms + exprs_labels(*self, es@)),
        decreases es, 0nat,
    {
        let ghost p = *self;
        let mut i: usize = 0;
        while i < es.len()
            invariant
                p == *self,
                i <= es.len(),
                tree_root(*tree) == tree_root(*old(tree)),
                default_style(*tree) == default_style(*old(tree)),
                shows_leaves(*tree, ms + exprs_labels(p, es@.take(i as int))),
            decreases es.len() - i,
        {
            proof {
                assert(decreases_to!(es => es@[i as int]));
            }
            let sub = self.expr_to_tree(&es[i]);
            push_shown(tree, sub, Ghost(ms + exprs_labels(p, es@.take(i as int))), Ghost(expr_label(p, es@[i as int])));
            proof {
                assert(es@.take(i + 1).drop_last() =~= es@.take(i as int));
                assert((ms + exprs_labels(p, es@.take(i as int))).push(expr_label(p, es@[i as int]))
                    =~= ms + exprs_labels(p, es@.take(i + 1)));
            }
            i = i + 1;
        }
        assert(es@.take(es.len() as int) =~= es@);
    }
}

impl AstPrinter {
    /// Adds the trees drawn for the initializers `fs` after the subtrees of `tree`.
    fn push_init_trees(
        &self,
        tree: &mut Tree<String>,
        fs: &Vec<CreateStructInitializer>,
        Ghost(ms): Ghost<Seq<LabelTree>>,
    )
        requires
            shows_leaves(*old(tree), ms),
        ensures
            tree_root(*final(tree)) == tree_root(*old(tree)),
            default_style(*final(tree)) == default_style(*old(tree)),
            shows_leaves(*final(tree), ms + inits_labels(*self, fs@)),
        decreases fs, 0nat,
    {
        let ghost p = *self;
        let mut i: usize = 0;
        while i < fs.len()
            invariant
                p == *self,
                i <= fs.len(),
                tree_root(*tree) == tree_root(*old(tree)),
                default_style(*tree) == default_style(*old(tree)),
                shows_leaves(*tree, ms + inits_labels(p, fs@.take(i as int))),
            decreases fs.len() - i,
        {
            proof {
                assert(decreases_to!(fs => fs@[i as int]));
            }
            let f = &fs[i];
            let sub = self.expr_to_tree(&f.expression);
            let mut prefix = owned(f.field_name.lexeme());
            push_str(&mut prefix, ": ");
            let sub = self.prefix_label(sub, prefix.as_str(), Ghost(expr_label(p, f.expression)));
            push_shown(
                tree,
                sub,
                Ghost(ms + inits_labels(p, fs@.take(i as int))),
                Ghost(prefixed(prefix@, expr_label(p, f.expression))),
            );
            proof {
                assert(fs@.take(i + 1).drop_last() =~= fs@.take(i as int));
                assert((ms + inits_labels(p, fs@.take(i as int))).push(
                    prefixed(prefix@, expr_label(p, f.expression)),
                ) =~= ms + inits_labels(p, fs@.take(i + 1)));
            }
            i = i + 1;
        }
        assert(fs@.take(fs.len() as int) =~= fs@);
    }

    /// Adds the trees drawn for the statements `ss` after the subtrees of `tree`.
    fn push_stmt_trees(&self, tree: &mut Tree<String>, ss: &Vec<AstNode<Stmt>>, Ghost(ms): Ghost<Seq<LabelTree>>)
        requires
            shows_leaves(*old(tree), ms),
        ensures
            tree_root(*final(tree)) == tree_root(*old(tree)),
            default_style(*final(tree)) == default_style(*old(tree)),
            shows_leaves(*final(tree), ms + stmts_labels(*self, ss@)),
        decreases ss, 0nat,
    {
        let ghost p = *self;
        let mut i: usize = 0;
        while i < ss.len()
            invariant
                p == *self,
                i <= ss.len(),
                tree_root(*tree) == tree_root(*old(tree)),
                default_style(*tree) == default_style(*old(tree)),
                shows_leaves(*tree, ms + stmts_labels(p, ss@.take(i as int))),
            decreases ss.len() - i,
        {
            proof {
                assert(decreases_to!(ss => ss@[i as int]));
            }
            let sub = self.stmt_to_tree(&ss[i]);
            push_shown(tree, sub, Ghost(ms + stmts_labels(p, ss@.take(i as int))), Ghost(stmt_label(p, ss@[i as int])));
            proof {
                assert(ss@.take(i + 1).drop_last() =~= ss@.take(i as int));
                assert((ms + stmts_labels(p, ss@.take(i as int))).push(stmt_label(p, ss@[i as int]))
                    =~= ms + stmts_labels(p, ss@.take(i + 1)));
            }
            i = i + 1;
        }
        assert(ss@.take(ss.len() as int) =~= ss@);
    }

    /// Adds the trees drawn for the fields `fs` after the subtrees of `tree`.
    fn push_field_trees(
        &self,
        tree: &mut Tree<String>,
        fs: &Vec<AstNode<StructStmtField>>,
        Ghost(ms): Ghost<Seq<LabelTree>>,
    )
        requires
            shows_leaves(*old(tree), ms),
        ensures
            tree_root(*final(tree)) == tree_root(*old(tree)),
            default_style(*final(tree)) == default_style(*old(tree)),
            shows_leaves(*final(tree), ms + fields_labels(*self, fs@)),
        decreases fs, 0nat,
    {
        let ghost p = *self;
        let mut i: usize = 0;
        while i < fs.len()
            invariant
                p == *self,
                i <= fs.len(),
                tree_root(*tree) == tree_root(*old(tree)),
                default_style(*tree) == default_style(*old(tree)),
                shows_leaves(*tree, ms + fields_labels(p, fs@.take(i as int))),
            decreases fs.len() - i,
        {
            proof {
                assert(decreases_to!(fs => fs@[i as int]));
            }
            let f = &fs[i];
            let mut label = owned("Field ");
            push_str(&mut label, f.data.name.lexeme());
            let mut sub = new_shown(label);
            push_shown(&mut sub, self.expr_to_tree(&f.data.type_expression), Ghost(Seq::empty()), Ghost(expr_label(p, f.data.type_expression)));
            let ghost m = LabelTree { root: label@, leaves: seq![expr_label(p, f.data.type_expression)] };
            let sub = self.add_location(sub, &f.ty, &f.location, Ghost(m));
            push_shown(tree, sub, Ghost(ms + fields_labels(p, fs@.take(i as int))), Ghost(located(p, m, f.ty, f.location)));
            proof {
                assert(fs@.take(i + 1).drop_last() =~= fs@.take(i as int));
                assert((ms + fields_labels(p, fs@.take(i as int))).push(located(p, m, f.ty, f.location))
                    =~= ms + fields_labels(p, fs@.take(i + 1)));
            }
            i = i + 1;
        }
        assert(fs@.take(fs.len() as int) =~= fs@);
    }

    /// Adds the trees drawn for the methods `ms_in` after the subtrees of `tree`.
    fn push_method_trees(
        &self,
        tree: &mut Tree<String>,
        methods: &Vec<AstNode<FunStmt>>,
        Ghost(ms): Ghost<Seq<LabelTree>>,
    )
        requires
            shows_leaves(*old(tree), ms),
        ensures
            tree_root(*final(tree)) == tree_root(*old(tree)),
            default_style(*final(tree)) == default_style(*old(tree)),
            shows_leaves(*final(tree), ms + methods_labels(*self, methods@)),
        decreases methods, 0nat,
    {
        let ghost p = *self;
        let mut i: usize = 0;
        while i < methods.len()
            invariant
                p == *self,
                i <= methods.len(),
                tree_root(*tree) == tree_root(*old(tree)),
                default_style(*tree) == default_style(*old(tree)),
                shows_leaves(*tree, ms + methods_labels(p, methods@.take(i as int))),
            decreases methods.len() - i,
        {
            proof {
                assert(decreases_to!(methods => methods@[i as int]));
            }
            let m = &methods[i];
            let sub = self.fun_to_tree(&m.data);
            let sub = self.prefix_label(sub, "Method: ", Ghost(fun_label(p, *m.data)));
            push_shown(tree, sub, Ghost(ms + methods_labels(p, methods@.take(i as int))), Ghost(prefixed("Method: "@, fun_label(p, *m.data))));
            proof {
                assert(methods@.take(i + 1).drop_last() =~= methods@.take(i as int));
                assert((ms + methods_labels(p, methods@.take(i as int))).push(prefixed("Method: "@, fun_label(p, *m.data)))
                    =~= ms + methods_labels(p, methods@.take(i + 1)));
            }
            i = i + 1;
        }
        assert(methods@.take(methods.len() as int) =~= methods@);
    }

    /// Adds the trees drawn for the parameters `ps` after the subtrees of `tree`.
    fn push_param_trees(&self, tree: &mut Tree<String>, ps: &Vec<FunParameter>, Ghost(ms): Ghost<Seq<LabelTree>>)
        requires
            shows_leaves(*old(tree), ms),
        ensures
            tree_root(*final(tree)) == tree_root(*old(tree)),
            default_style(*final(tree)) == default_style(*old(tree)),
            shows_leaves(*final(tree), ms + params_labels(*self, ps@)),
        decreases ps, 0nat,
    {
        let ghost p = *self;
        let mut i: usize = 0;
        while i < ps.len()
            invariant
                p == *self,
                i <= ps.len(),
                tree_root(*tree) == tree_root(*old(tree)),
                default_style(*tree) == default_style(*old(tree)),
                shows_leaves(*tree, ms + params_labels(p, ps@.take(i as int))),
            decreases ps.len() - i,
        {
            proof {
                assert(decreases_to!(ps => ps@[i as int]));
            }
            let q = &ps[i];
            let mut label = owned("Param ");
            push_str(&mut label, q.name.lexeme());
            let mut sub = new_shown(label);
            push_shown(&mut sub, self.expr_to_tree(&q.type_expression), Ghost(Seq::empty()), Ghost(expr_label(p, q.type_expression)));
            let ghost m = LabelTree { root: label@, leaves: seq![expr_label(p, q.type_expression)] };
            push_shown(tree, sub, Ghost(ms + params_labels(p, ps@.take(i as int))), Ghost(m));
            proof {
                assert(ps@.take(i + 1).drop_last() =~= ps@.take(i as int));
                assert((ms + params_labels(p, ps@.take(i as int))).push(m) =~= ms + params_labels(p, ps@.take(i + 1)));
            }
            i = i + 1;
        }
        assert(ps@.take(ps.len() as int) =~= ps@);
    }

    /// The tree drawn for a function declaration (see `fun_label`).
    pub fn fun_to_tree(&self, fun: &FunStmt) -> (t: Tree<String>)
        ensures
            tree_shows(t, fun_label(*self, *fun)),
        decreases fun, 0nat,
    {
        let ghost p = *self;
        let ps = &fun.parameters;
        let ghost names = param_names(ps@);
        let mut s = owned("Declare fun '");
        push_str(&mut s, fun.name.lexeme());
        push_str(&mut s, "(");
        let ghost head = s@;
        let mut i: usize = 0;
        while i < ps.len()
            invariant
                p == *self,
                i <= ps.len(),
                names == param_names(ps@),
                s@ == head + join_with(names.take(i as int), ", "@),
            decreases ps.len() - i,
        {
            if i > 0 {
                push_str(&mut s, ", ");
            }
            push_str(&mut s, ps[i].name.lexeme());
            proof {
                assert(names.take(i + 1).drop_last() =~= names.take(i as int));
                if i == 0 {
                    assert(names.take(0) =~= Seq::<Seq<char>>::empty());
                }
            }
            i = i + 1;
            assert(s@ =~= head + join_with(names.take(i as int), ", "@));
        }
        assert(names.take(ps.len() as int) =~= names);
        push_str(&mut s, ")'");
        let mut t = new_shown(s);
        self.push_param_trees(&mut t, ps, Ghost(Seq::empty()));
        assert(Seq::<LabelTree>::empty() + params_labels(p, ps@) =~= params_labels(p, ps@));
        let ret = self.expr_to_tree(&fun.return_type);
        let ret = self.prefix_label(ret, "Return type: ", Ghost(expr_label(p, fun.return_type)));
        push_shown(&mut t, ret, Ghost(params_labels(p, ps@)), Ghost(prefixed("Return type: "@, expr_label(p, fun.return_type))));
        let body = self.expr_to_tree(&fun.body);
        append_shown(
            &mut t,
            body,
            Ghost(params_labels(p, ps@).push(prefixed("Return type: "@, expr_label(p, fun.return_type)))),
            Ghost(expr_label(p, fun.body)),
        );
        assert(s@ =~= fun_label(p, *fun).root);
        t
    }

    /// The tree drawn for a statement (see `stmt_label`).
    pub fn stmt_to_tree(&self, ast: &AstNode<Stmt>) -> (t: Tree<String>)
        ensures
            tree_shows(t, stmt_label(*self, *ast)),
        decreases ast, 0nat,
    {
        let ghost p = *self;
        match &*ast.data {
            Stmt::Expression(x) => self.expr_to_tree(&x.expression),
            Stmt::Let(l) => {
                let mut label = owned("Let '");
                let name = l.name.to_display_string();
                push_str(&mut label, name.as_str());
                push_str(&mut label, "'");
                let mut t = new_shown(label);
                push_shown(&mut t, self.expr_to_tree(&l.expression), Ghost(Seq::empty()), Ghost(expr_label(p, l.expression)));
                let ghost m = LabelTree { root: label@, leaves: seq![expr_label(p, l.expression)] };
                self.add_location(t, &ast.ty, &ast.location, Ghost(m))
            },
            Stmt::Fun(f) => {
                let t = self.fun_to_tree(f);
                self.add_location(t, &ast.ty, &ast.location, Ghost(fun_label(p, *f)))
            },
            Stmt::Struct(st) => {
                let mut label = owned("Struct '");
                push_str(&mut label, st.name.lexeme());
                push_str(&mut label, "'");
                let mut t = new_shown(label);
                self.push_field_trees(&mut t, &st.fields, Ghost(Seq::empty()));
                assert(Seq::<LabelTree>::empty() + fields_labels(p, st.fields@) =~= fields_labels(p, st.fields@));
                let ghost m = LabelTree { root: label@, leaves: fields_labels(p, st.fields@) };
                self.add_location(t, &ast.ty, &ast.location, Ghost(m))
            },
            Stmt::Impl(i) => {
                let mut label = owned("Impl '");
                push_str(&mut label, i.name.lexeme());
                push_str(&mut label, "'");
                let mut t = new_shown(label);
                self.push_method_trees(&mut t, &i.methods, Ghost(Seq::empty()));
                assert(Seq::<LabelTree>::empty() + methods_labels(p, i.methods@) =~= methods_labels(p, i.methods@));
                let ghost m = LabelTree { root: label@, leaves: methods_labels(p, i.methods@) };
                self.add_location(t, &ast.ty, &ast.location, Ghost(m))
            },
            Stmt::Trait(tr) => {
                let mut label = owned("Trait '");
                push_str(&mut label, tr.name.lexeme());
                push_str(&mut label, "'");
                new_shown(label)
            },
            Stmt::While(w) => {
                let mut t = new_shown(owned("While"));
                push_shown(&mut t, self.expr_to_tree(&w.condition), Ghost(Seq::empty()), Ghost(expr_label(p, w.condition)));
                push_shown(&mut t, self.stmt_to_tree(&w.body_stmt), Ghost(Seq::<LabelTree>::empty().push(expr_label(p, w.condition))), Ghost(stmt_label(p, w.body_stmt)));
                let ghost m = LabelTree { root: "While"@, leaves: seq![expr_label(p, w.condition), stmt_label(p, w.body_stmt)] };
                self.add_location(t, &ast.ty, &ast.location, Ghost(m))
            },
        }
    }

    /// Draws a module (see `module_label`) as `termtree` does.
    pub fn print(&self, ast: &AstNode<Module>) -> (s: String)
        ensures
            exists|t: Tree<String>| #[trigger] tree_shows(t, module_label(*self, *ast)) && s@ == tree_text(t),
    {
        let ghost p = *self;
        let mut t = new_shown(owned("Module"));
        self.push_stmt_trees(&mut t, &ast.data.stmts, Ghost(Seq::empty()));
        assert(Seq::<LabelTree>::empty() + stmts_labels(p, ast.data.stmts@) =~= stmts_labels(p, ast.data.stmts@));
        assert(tree_shows(t, module_label(p, *ast)));
        tree_render(&t)
    }

    /// Draws an expression (see `expr_label`) as `termtree` does.
    pub fn print_expr(&self, ast: &AstNode<Expr>) -> (s: String)
        ensures
            exists|t: Tree<String>| #[trigger] tree_shows(t, expr_label(*self, *ast)) && s@ == tree_text(t),
    {
        let t = self.expr_to_tree(ast);
        tree_render(&t)
    }
}

/// Draws a module with the default printer: locations, and no types.
pub fn ast_to_string(ast: &AstNode<Module>) -> (s: String)
    ensures
        exists|p: AstPrinter, t: Tree<String>|
            #![trigger tree_shows(t, module_label(p, *ast))]
            p.spec_print_locations() && !p.spec_print_types() && tree_shows(t, module_label(p, *ast))
                && s@ == tree_text(t),
{
    let p = AstPrinter::new();
    p.print(ast)
}

} // verus!
