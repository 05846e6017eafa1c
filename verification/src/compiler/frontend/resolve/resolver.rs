//! Name resolution: symbols and lexical scopes, and the checks made of expressions and
//! statements whose parts are resolved, with the diagnostics they give.
use vstd::prelude::*;
use crate::compiler::frontend::ast::expr::{
    AssignExpr, CallExpr, CreateStructExpr, CreateStructInitializer, Expr, IfExpr, LiteralExpr,
};
use crate::compiler::frontend::ast::stmt::LetStmt;
use crate::compiler::frontend::ast::qualified_name::part_texts;
use crate::compiler::frontend::lex::token::{Token, TokenType, is_comparison_type};
use crate::compiler::frontend::lex::token::token_text;
use crate::compiler::frontend::resolve::module_manifest::{bytes_le, lemma_bytes_le_antisymmetric};
use vstd::multiset::Multiset;
use crate::compiler::frontend::ast::node::AstNode;
use crate::compiler::frontend::resolve::type_checker::{assignable, TypeChecker};
use crate::compiler::infra::diagnostic::{DiagnosticModel, InterpreterDiagnostic, diagnostic_views};
use crate::compiler::infra::source_span::{EPHEMERAL_FILE, SourceSpan};
use crate::compiler::model::type_factory::TypeFactory;
use crate::compiler::model::types::{
    PrimitiveType, StructField, Type, TypeKind, field_names_unique, type_equal, types_equal,
};
use itertools::Itertools;
use vstd::utf8::encode_utf8;
use crate::text::{decimal, join_with, owned, push_decimal, push_str, str_equal};

verus! {

/// The labels that point at where a type was declared: `text` at its declaration site,
/// unless that site is ephemeral.
pub open spec fn declared_labels(ty: Type, text: Seq<char>) -> Seq<(SourceSpan, Seq<char>)> {
    let site = ty.spec_declaration_site();
    if site.source_file.inner.filename@ == EPHEMERAL_FILE@ {
        Seq::empty()
    } else {
        seq![(site, text)]
    }
}

/// The message for a call with `actual` arguments of a function with `expected` parameters.
pub open spec fn arity_message(expected: nat, actual: nat) -> Seq<char> {
    "Wrong number of arguments in call - expected: "@ + decimal(expected) + ", actual "@ + decimal(
        actual,
    )
}

/// The message for an argument of type `arg` that cannot be passed as a parameter of
/// type `param`.
pub open spec fn coerce_message(arg: Type, param: Type) -> Seq<char> {
    "Cannot coerce argument of type "@ + arg.type_text() + " as parameter of type "@
        + param.type_text() + " in function invocation"@
}

/// The message for a call of something that is not a function.
pub open spec fn not_a_function_message(ty: Type) -> Seq<char> {
    "Expected a function to call, but instead found type "@ + ty.type_text()
}

/// The diagnostics for the first `n` arguments of a call, in order: one for each that
/// cannot be assigned to its parameter, at the argument.
pub open spec fn argument_diagnostics(
    params: Seq<Type>,
    args: Seq<AstNode<Expr>>,
    labels: Seq<(SourceSpan, Seq<char>)>,
    n: nat,
) -> Seq<DiagnosticModel>
    decreases n,
{
    if n == 0 {
        Seq::empty()
    } else {
        let prev = argument_diagnostics(params, args, labels, (n - 1) as nat);
        let i = n - 1;
        if assignable(args[i].ty, params[i]) {
            prev
        } else {
            prev.push(
                DiagnosticModel {
                    location: args[i].location,
                    message: coerce_message(args[i].ty, params[i]),
                    labels,
                },
            )
        }
    }
}

/// The diagnostics for a call at `location` of `callee` with `args`, all resolved: if the
/// callee is no function, one at the callee; otherwise one for a wrong number of
/// arguments, then one for each argument (as far as there are parameters) that cannot be
/// assigned to its parameter, each labelled with where the function was declared.
pub open spec fn call_diagnostics(callee: AstNode<Expr>, args: Seq<AstNode<Expr>>, location: SourceSpan) -> Seq<
    DiagnosticModel,
> {
    match callee.ty.spec_kind() {
        TypeKind::Function(f) => {
            let labels = declared_labels(callee.ty, "Function declared here"@);
            let params = f.parameter_types@;
            let arity = if params.len() != args.len() {
                seq![
                    DiagnosticModel {
                        location,
                        message: arity_message(params.len(), args.len()),
                        labels,
                    },
                ]
            } else {
                Seq::empty()
            };
            let n = if params.len() < args.len() {
                params.len()
            } else {
                args.len()
            };
            arity + argument_diagnostics(params, args, labels, n)
        },
        _ => seq![
            DiagnosticModel {
                location: callee.location,
                message: not_a_function_message(callee.ty),
                labels: Seq::empty(),
            },
        ],
    }
}

/// The type of a call of `callee`: the return type of the function, or `unresolved` if
/// the callee is no function.
pub open spec fn call_type(callee: AstNode<Expr>, unresolved: Type) -> Type {
    match callee.ty.spec_kind() {
        TypeKind::Function(f) => f.return_type,
        _ => unresolved,
    }
}



/// The field named `name` among `fields`, the last one if there are several.
pub open spec fn field_named(fields: Seq<StructField>, name: Seq<char>) -> Option<StructField>
    decreases fields.len(),
{
    if fields.len() == 0 {
        None
    } else if fields.last().name@ == name {
        Some(fields.last())
    } else {
        field_named(fields.drop_last(), name)
    }
}

/// The names of the fields come in the order of `str`.
pub open spec fn names_sorted(fields: Seq<StructField>) -> bool {
    forall|i: int, j: int|
        0 <= i < j < fields.len() ==> bytes_le(
            encode_utf8(#[trigger] fields[i].name@),
            encode_utf8(#[trigger] fields[j].name@),
        )
}

/// The latest location recorded for each name, in a list of names and locations.
pub open spec fn seen_of(v: Seq<(String, SourceSpan)>) -> Map<Seq<char>, SourceSpan>
    decreases v.len(),
{
    if v.len() == 0 {
        Map::empty()
    } else {
        seen_of(v.drop_last()).insert(v.last().0@, v.last().1)
    }
}

/// What checking the first initializers of a struct value gives: where each field was
/// initialized last, the diagnostics for fields initialized again, and the others.
pub struct InitCheck {
    pub seen: Map<Seq<char>, SourceSpan>,
    pub repeated: Seq<DiagnosticModel>,
    pub others: Seq<DiagnosticModel>,
}

/// The message for an initializer of a field that the struct `ty` does not have.
pub open spec fn unknown_field_message(ty: Type, name: Seq<char>) -> Seq<char> {
    "Struct "@ + ty.type_text() + " does not have a field named '"@ + name + "'"@
}

/// The message for an initializer of type `value` for the field `name` of type `field`.
pub open spec fn field_coerce_message(value: Type, name: Seq<char>, field: Type, ty: Type) -> Seq<char> {
    "Cannot coerce field initializer value of type "@ + value.type_text() + " to field '"@ + name
        + "' type "@ + field.type_text() + " in construction of struct "@ + ty.type_text()
}

/// The message for a field `name` that no initializer of a value of the struct `ty` sets.
pub open spec fn missing_field_message(ty: Type, name: Seq<char>, field: Type) -> Seq<char> {
    "Struct initializer for struct "@ + ty.type_text() + " is missing field '"@ + name
        + "' of type '"@ + field.type_text() + "'"@
}

/// The message for a value of something that is not a struct.
pub open spec fn not_a_struct_message(ty: Type) -> Seq<char> {
    "Expected a struct to create, but instead found type "@ + ty.type_text()
}

/// Checks the first `n` initializers of a value of the struct type `ty` with `fields`, in
/// order: an initializer of an unknown field is reported and skipped; one whose value
/// cannot be assigned to its field is reported; one of a field initialized before is
/// reported with the place of the latest earlier one.
pub open spec fn init_check(ty: Type, fields: Seq<StructField>, inits: Seq<CreateStructInitializer>, n: nat) -> InitCheck
    decreases n,
{
    if n == 0 || n > inits.len() {
        InitCheck { seen: Map::empty(), repeated: Seq::empty(), others: Seq::empty() }
    } else {
        let prev = init_check(ty, fields, inits, (n - 1) as nat);
        let init = inits[n - 1];
        let name = init.field_name.inner.value@;
        let loc = init.field_name.inner.location;
        let labels = declared_labels(ty, "Struct declared here"@);
        match field_named(fields, name) {
            None => InitCheck {
                seen: prev.seen,
                repeated: prev.repeated,
                others: prev.others.push(
                    DiagnosticModel { location: loc, message: unknown_field_message(ty, name), labels },
                ),
            },
            Some(f) => InitCheck {
                seen: prev.seen.insert(name, loc),
                repeated: if prev.seen.contains_key(name) {
                    prev.repeated.push(
                        DiagnosticModel {
                            location: loc,
                            message: "Field "@ + token_text(init.field_name.inner.token_type, name)
                                + " is already initialized"@,
                            labels: seq![(prev.seen[name], "Already initialized here"@)],
                        },
                    )
                } else {
                    prev.repeated
                },
                others: if assignable(init.expression.ty, f.ty) {
                    prev.others
                } else {
                    prev.others.push(
                        DiagnosticModel {
                            location: loc,
                            message: field_coerce_message(init.expression.ty, name, f.ty, ty),
                            labels,
                        },
                    )
                },
            },
        }
    }
}

/// The diagnostics, at `location`, for the first `n` of the fields `sorted` that are not
/// in `seen`, in order.
pub open spec fn missing_diagnostics(
    ty: Type,
    sorted: Seq<StructField>,
    seen: Map<Seq<char>, SourceSpan>,
    location: SourceSpan,
    n: nat,
) -> Seq<DiagnosticModel>
    decreases n,
{
    if n == 0 || n > sorted.len() {
        Seq::empty()
    } else {
        let prev = missing_diagnostics(ty, sorted, seen, location, (n - 1) as nat);
        let f = sorted[n - 1];
        if seen.contains_key(f.name@) {
            prev
        } else {
            prev.push(
                DiagnosticModel {
                    location,
                    message: missing_field_message(ty, f.name@, f.ty),
                    labels: declared_labels(ty, "Struct declared here"@),
                },
            )
        }
    }
}

/// The diagnostics for a value at `location` of the struct type `ty` with `fields`, from
/// `inits`, whose fields in name order are `sorted`: those for fields initialized again,
/// then the other diagnostics of the initializers, then one for each field left out.
pub open spec fn struct_value_diagnostics(
    ty: Type,
    fields: Seq<StructField>,
    inits: Seq<CreateStructInitializer>,
    location: SourceSpan,
    sorted: Seq<StructField>,
) -> Seq<DiagnosticModel> {
    let c = init_check(ty, fields, inits, inits.len());
    c.repeated + c.others + missing_diagnostics(ty, sorted, c.seen, location, sorted.len())
}


/// Two fields of `m` with the same name are the same field, as in a map by name.
pub open spec fn names_determine_fields(m: Multiset<StructField>) -> bool {
    forall|x: StructField, y: StructField|
        #![trigger m.count(x), m.count(y)]
        m.count(x) > 0 && m.count(y) > 0 && x.name@ == y.name@ ==> x == y
}

/// Fields with unique names are determined by their names.
pub proof fn lemma_unique_names_determine_fields(fields: Seq<StructField>)
    requires
        field_names_unique(fields),
    ensures
        names_determine_fields(fields.to_multiset()),
{
    broadcast use vstd::seq_lib::group_to_multiset_ensures;

    assert forall|x: StructField, y: StructField|
        fields.to_multiset().count(x) > 0 && fields.to_multiset().count(y) > 0 && x.name@ == y.name@ implies x
        == y by {
        assert(fields.contains(x));
        assert(fields.contains(y));
        let i = choose|i: int| 0 <= i < fields.len() && fields[i] == x;
        let j = choose|j: int| 0 <= j < fields.len() && fields[j] == y;
        if i != j {
            assert(fields[i].name@ != fields[j].name@);
        }
    }
}

/// The order of fields by name is determined: two orderings by name of the same fields,
/// whose names determine them, are the same sequence.
pub proof fn law_sorted_fields_unique(p: Seq<StructField>, q: Seq<StructField>)
    requires
        p.to_multiset() == q.to_multiset(),
        names_sorted(p),
        names_sorted(q),
        names_determine_fields(p.to_multiset()),
    ensures
        p == q,
    decreases p.len(),
{
    broadcast use vstd::seq_lib::group_to_multiset_ensures;

    assert(p.len() == p.to_multiset().len());
    assert(q.len() == q.to_multiset().len());
    if p.len() == 0 {
        assert(q.len() == 0);
        assert(p =~= q);
    } else {
        let x = p[0];
        let y = q[0];
        assert(q.contains(y));
        assert(p.to_multiset().count(y) > 0);
        assert(p.contains(y));
        let i = choose|i: int| 0 <= i < p.len() && p[i] == y;
        assert(p.contains(x));
        assert(q.to_multiset().count(x) > 0);
        assert(q.contains(x));
        let j = choose|j: int| 0 <= j < q.len() && q[j] == x;
        if i > 0 {
            assert(bytes_le(encode_utf8(p[0].name@), encode_utf8(p[i].name@)));
        }
        if j > 0 {
            assert(bytes_le(encode_utf8(q[0].name@), encode_utf8(q[j].name@)));
        }
        if i > 0 && j > 0 {
            lemma_bytes_le_antisymmetric(encode_utf8(x.name@), encode_utf8(y.name@));
        }
        vstd::utf8::encode_utf8_decode_utf8(x.name@);
        vstd::utf8::encode_utf8_decode_utf8(y.name@);
        assert(x.name@ == y.name@);
        assert(p.to_multiset().count(x) > 0 && p.to_multiset().count(y) > 0);
        assert(x == y);
        let p1 = p.remove(0);
        let q1 = q.remove(0);
        assert(p1.to_multiset() == p.to_multiset().remove(x));
        assert(q1.to_multiset() == q.to_multiset().remove(y));
        assert forall|i1: int, j1: int| 0 <= i1 < j1 < p1.len() implies bytes_le(
            encode_utf8(#[trigger] p1[i1].name@),
            encode_utf8(#[trigger] p1[j1].name@),
        ) by {
            assert(p1[i1] == p[i1 + 1] && p1[j1] == p[j1 + 1]);
        }
        assert forall|i1: int, j1: int| 0 <= i1 < j1 < q1.len() implies bytes_le(
            encode_utf8(#[trigger] q1[i1].name@),
            encode_utf8(#[trigger] q1[j1].name@),
        ) by {
            assert(q1[i1] == q[i1 + 1] && q1[j1] == q[j1 + 1]);
        }
        assert forall|a: StructField, b: StructField|
            p1.to_multiset().count(a) > 0 && p1.to_multiset().count(b) > 0 && a.name@ == b.name@ implies a
            == b by {
            assert(p.to_multiset().count(a) > 0 && p.to_multiset().count(b) > 0);
        }
        law_sorted_fields_unique(p1, q1);
        assert(p =~= seq![x] + p1);
        assert(q =~= seq![y] + q1);
    }
}

/// The latest location recorded for `name` in `seen`, if any (see `seen_of`).
fn seen_get<'a>(seen: &'a Vec<(String, SourceSpan)>, name: &str) -> (r: Option<&'a SourceSpan>)
    ensures
        r matches Some(l) ==> seen_of(seen@).contains_key(name@) && seen_of(seen@)[name@] == *l,
        r is None ==> !seen_of(seen@).contains_key(name@),
{
    let mut i = seen.len();
    assert(seen@.take(i as int) =~= seen@);
    while i > 0
        invariant
            i <= seen@.len(),
            seen_of(seen@).contains_key(name@) == seen_of(seen@.take(i as int)).contains_key(name@),
            seen_of(seen@).contains_key(name@) ==> seen_of(seen@)[name@] == seen_of(seen@.take(i as int))[name@],
        decreases i,
    {
        assert(seen@.take(i as int).last() == seen@[i - 1]);
        assert(seen@.take(i as int).drop_last() =~= seen@.take(i - 1));
        if str_equal(seen[i - 1].0.as_str(), name) {
            return Some(&seen[i - 1].1);
        }
        i = i - 1;
    }
    None
}

/// The field named `name` among `fields` (see `field_named`).
fn find_field<'a>(fields: &'a Vec<StructField>, name: &str) -> (r: Option<&'a StructField>)
    ensures
        r matches Some(f) ==> field_named(fields@, name@) == Some(*f),
        r is None ==> field_named(fields@, name@) is None,
{
    let mut i = fields.len();
    assert(fields@.take(i as int) =~= fields@);
    while i > 0
        invariant
            i <= fields@.len(),
            field_named(fields@, name@) == field_named(fields@.take(i as int), name@),
        decreases i,
    {
        assert(fields@.take(i as int).last() == fields@[i - 1]);
        assert(fields@.take(i as int).drop_last() =~= fields@.take(i - 1));
        if str_equal(fields[i - 1].name.as_str(), name) {
            return Some(&fields[i - 1]);
        }
        i = i - 1;
    }
    None
}

/// The fields ordered by name (`Itertools::sorted_by_key`, a stable sort by the names'
/// `str` order): a permutation of them in which the names come in order.
#[verifier::external_body]
fn sorted_fields(fields: &Vec<StructField>) -> (r: Vec<&StructField>)
    ensures
        r@.map_values(|f: &StructField| *f).to_multiset() == fields@.to_multiset(),
        names_sorted(r@.map_values(|f: &StructField| *f)),
{
    fields.iter().sorted_by_key(|f| &f.name).collect()
}


/// The type of a literal: `str`, `f64`, `i64`, `bool` or `unit`, as `f` makes them.
pub open spec fn literal_type(f: TypeFactory, l: LiteralExpr) -> Type {
    match l {
        LiteralExpr::Str(_) => f.spec_str(),
        LiteralExpr::F64(_) => f.spec_f64(),
        LiteralExpr::I64(_) => f.spec_i64(),
        LiteralExpr::Bool(_) => f.spec_bool(),
        LiteralExpr::Unit => f.spec_unit(),
    }
}

/// The type of a binary expression whose node had type `current`: `bool` for a
/// comparison, the operands' type when they are equal, and `current` otherwise.
pub open spec fn binary_type(f: TypeFactory, operator: Token, left: Type, right: Type, current: Type) -> Type {
    if is_comparison_type(operator.inner.token_type) {
        f.spec_bool()
    } else if type_equal(left, right) {
        left
    } else {
        current
    }
}

/// The message for an `if` whose condition is of type `ty`, which is not `bool`.
pub open spec fn condition_message(ty: Type) -> Seq<char> {
    "Condition in if statement must evaluate to a boolean, but was of type "@ + ty.type_text()
        + " instead"@
}

/// The message for an `if` whose branches have the types `then_ty` and `else_ty`.
pub open spec fn branches_message(then_ty: Type, else_ty: Type) -> Seq<char> {
    "Then and else branch of if statement must evaluate to the same type, but then evaluates to "@
        + then_ty.type_text() + ", while else evaluates to "@ + else_ty.type_text()
}

/// The diagnostics for an `if` at `location` whose parts are resolved: one at the
/// condition unless it is of type `bool`, then one unless the branches (a missing `else`
/// counts as `unit`) have equal types.
pub open spec fn if_diagnostics(f: TypeFactory, i: IfExpr, location: SourceSpan) -> Seq<DiagnosticModel> {
    let c = i.condition.ty;
    let cond = if c.spec_kind() == TypeKind::Primitive(PrimitiveType::Bool) {
        Seq::empty()
    } else {
        seq![
            DiagnosticModel {
                location: i.condition.location,
                message: condition_message(c),
                labels: Seq::empty(),
            },
        ]
    };
    let else_ty = match i.else_expr {
        Some(e) => e.ty,
        None => f.spec_unit(),
    };
    if type_equal(else_ty, i.then_expr.ty) {
        cond
    } else {
        cond.push(
            DiagnosticModel {
                location,
                message: branches_message(i.then_expr.ty, else_ty),
                labels: Seq::empty(),
            },
        )
    }
}

/// How a qualified name is shown: its parts joined by `::`.
pub open spec fn name_text(n: AstNode<crate::compiler::frontend::ast::qualified_name::QualifiedName>) -> Seq<char> {
    join_with(part_texts(n.data.parts@), "::"@)
}

/// A declared name: where it was declared, whether it is defined yet, and its type.
pub struct Symbol {
    pub declaration_site: SourceSpan,
    pub is_defined: bool,
    pub ty: Type,
}

impl Symbol {
    /// A defined symbol of type `ty`, declared at `declaration_site`.
    pub fn define(declaration_site: &SourceSpan, ty: &Type) -> (s: Self)
        ensures
            s == (Symbol { declaration_site: *declaration_site, is_defined: true, ty: *ty }),
    {
        Symbol { declaration_site: declaration_site.duplicate(), is_defined: true, ty: ty.share() }
    }

    /// A symbol of type `ty` declared at `declaration_site` and not defined yet.
    pub fn declare(declaration_site: &SourceSpan, ty: &Type) -> (s: Self)
        ensures
            s == (Symbol { declaration_site: *declaration_site, is_defined: false, ty: *ty }),
    {
        Symbol { declaration_site: declaration_site.duplicate(), is_defined: false, ty: ty.share() }
    }
}

/// The symbol named `name` among `entries`, the last one if there are several.
pub open spec fn lookup_entry(entries: Seq<(String, Symbol)>, name: Seq<char>) -> Option<Symbol>
    decreases entries.len(),
{
    if entries.len() == 0 {
        None
    } else if entries.last().0@ == name {
        Some(entries.last().1)
    } else {
        lookup_entry(entries.drop_last(), name)
    }
}

/// A lexical scope: the symbols declared in it, by name.
pub struct LexicalScope {
    symbols: Vec<(String, Symbol)>,
    current_function: Option<CurrentFunctionInfo>,
}

/// What a function body knows of its function: the declared return type and where it was
/// declared.
pub struct CurrentFunctionInfo {
    pub declared_return_type: Type,
    pub return_type_declaration_site: SourceSpan,
}

impl LexicalScope {
    /// The function whose body the scope is, if it is one.
    pub closed spec fn spec_function(&self) -> Option<CurrentFunctionInfo> {
        self.current_function
    }

    /// An empty scope for the body of a function returning `declared_return_type`, as
    /// declared at `return_type_declaration_site`.
    pub fn function_body(declared_return_type: Type, return_type_declaration_site: SourceSpan) -> (s: Self)
        ensures
            forall|name: Seq<char>| #[trigger] s.spec_lookup(name) is None,
            s.spec_function() == Some(
                CurrentFunctionInfo { declared_return_type, return_type_declaration_site },
            ),
    {
        LexicalScope {
            symbols: Vec::new(),
            current_function: Some(CurrentFunctionInfo { declared_return_type, return_type_declaration_site }),
        }
    }

    /// The symbol declared under `name` in the scope, if any.
    pub closed spec fn spec_lookup(&self, name: Seq<char>) -> Option<Symbol> {
        lookup_entry(self.symbols@, name)
    }

    /// An empty scope.
    pub fn new() -> (s: Self)
        ensures
            forall|name: Seq<char>| #[trigger] s.spec_lookup(name) is None,
            s.spec_function() is None,
    {
        LexicalScope { symbols: Vec::new(), current_function: None }
    }

    /// The symbol declared under `name`, if any.
    pub fn get(&self, name: &str) -> (r: Option<&Symbol>)
        ensures
            r matches Some(s) ==> self.spec_lookup(name@) == Some(*s),
            r is None ==> self.spec_lookup(name@) is None,
    {
        let mut i = self.symbols.len();
        assert(self.symbols@.take(i as int) =~= self.symbols@);
        while i > 0
            invariant
                i <= self.symbols@.len(),
                lookup_entry(self.symbols@, name@) == lookup_entry(self.symbols@.take(i as int), name@),
            decreases i,
        {
            let entry = &self.symbols[i - 1];
            assert(self.symbols@.take(i as int).last() == self.symbols@[i - 1]);
            assert(self.symbols@.take(i as int).drop_last() =~= self.symbols@.take(i - 1));
            if str_equal(entry.0.as_str(), name) {
                return Some(&entry.1);
            }
            i = i - 1;
        }
        None
    }

    /// Records `symbol` as the latest declaration of `name` in the scope, in place of any
    /// earlier one.
    pub fn redefine(&mut self, name: &str, symbol: Symbol)
        ensures
            final(self).spec_function() == old(self).spec_function(),
            forall|n: Seq<char>| #[trigger] final(self).spec_lookup(n) == if n == name@ {
                Some(symbol)
            } else {
                old(self).spec_lookup(n)
            },
    {
        let ghost before = self.symbols@;
        self.symbols.push((owned(name), symbol));
        assert(self.symbols@.drop_last() =~= before);
    }

    /// Declares `symbol` under `name`, unless the name is declared in the scope already.
    /// Returns whether it was declared; the scope is otherwise unchanged.
    pub fn declare(&mut self, name: &str, symbol: Symbol) -> (added: bool)
        ensures
            final(self).spec_function() == old(self).spec_function(),
            added == (old(self).spec_lookup(name@) is None),
            added ==> forall|n: Seq<char>| #[trigger] final(self).spec_lookup(n) == if n == name@ {
                Some(symbol)
            } else {
                old(self).spec_lookup(n)
            },
            !added ==> *final(self) == *old(self),
    {
        if self.get(name).is_some() {
            return false;
        }
        let ghost before = self.symbols@;
        self.symbols.push((owned(name), symbol));
        assert(self.symbols@.drop_last() =~= before);
        true
    }
}

/// The index of the innermost of the first `n` scopes that declares `name`, if any.
pub open spec fn innermost_declaring(scopes: Seq<LexicalScope>, name: Seq<char>, n: nat) -> Option<int>
    decreases n,
{
    if n == 0 {
        None
    } else if scopes[n - 1].spec_lookup(name) is Some {
        Some(n - 1)
    } else {
        innermost_declaring(scopes, name, (n - 1) as nat)
    }
}

/// Where a read of `name` finds its definition: the innermost scope that declares the
/// name decides; if the symbol there is defined, its distance (the number of scopes
/// between it and the innermost one) and the symbol, and nothing otherwise.
pub open spec fn definition_of(scopes: Seq<LexicalScope>, name: Seq<char>) -> Option<(int, Symbol)> {
    match innermost_declaring(scopes, name, scopes.len()) {
        Some(k) => {
            let symbol = scopes[k].spec_lookup(name)->0;
            if symbol.is_defined {
                Some((scopes.len() - 1 - k, symbol))
            } else {
                None
            }
        },
        None => None,
    }
}

/// Looks up `name` from the innermost of `scopes` outwards (see `definition_of`).
pub fn get_definition_distance_and_symbol<'a>(scopes: &'a Vec<LexicalScope>, name: &str) -> (r: Option<(i32, &'a Symbol)>)
    requires
        scopes@.len() <= i32::MAX,
    ensures
        r matches Some((d, s)) ==> definition_of(scopes@, name@) == Some((d as int, *s)),
        r is None ==> definition_of(scopes@, name@) is None,
{
    let mut k = scopes.len();
    while k > 0
        invariant
            k <= scopes@.len(),
            scopes@.len() <= i32::MAX,
            innermost_declaring(scopes@, name@, scopes@.len()) == innermost_declaring(scopes@, name@, k as nat),
        decreases k,
    {
        let scope = &scopes[k - 1];
        if let Some(symbol) = scope.get(name) {
            if symbol.is_defined {
                let distance = (scopes.len() - k) as i32;
                return Some((distance, symbol));
            } else {
                return None;
            }
        }
        k = k - 1;
    }
    None
}


/// A name declared and defined in the innermost scope is found there, at distance 0,
/// whatever the outer scopes declare.
pub proof fn law_innermost_definition_shadows(scopes: Seq<LexicalScope>, name: Seq<char>)
    requires
        scopes.len() > 0,
        scopes.last().spec_lookup(name) matches Some(s) && s.is_defined,
    ensures
        definition_of(scopes, name) == Some((0int, scopes.last().spec_lookup(name)->0)),
{
}

proof fn lemma_none_declaring(scopes: Seq<LexicalScope>, name: Seq<char>, n: nat)
    requires
        n <= scopes.len(),
        forall|i: int| 0 <= i < n ==> #[trigger] scopes[i].spec_lookup(name) is None,
    ensures
        innermost_declaring(scopes, name, n) is None,
    decreases n,
{
    if n > 0 {
        lemma_none_declaring(scopes, name, (n - 1) as nat);
    }
}

/// A name that no scope declares is not found.
pub proof fn law_undeclared_not_found(scopes: Seq<LexicalScope>, name: Seq<char>)
    requires
        forall|i: int| 0 <= i < scopes.len() ==> #[trigger] scopes[i].spec_lookup(name) is None,
    ensures
        definition_of(scopes, name) is None,
{
    lemma_none_declaring(scopes, name, scopes.len());
}


/// The index of the innermost of the first `n` scopes that is a function body, if any.
pub open spec fn innermost_function(scopes: Seq<LexicalScope>, n: nat) -> Option<int>
    decreases n,
{
    if n == 0 || n > scopes.len() {
        None
    } else if scopes[n - 1].spec_function() is Some {
        Some(n - 1)
    } else {
        innermost_function(scopes, (n - 1) as nat)
    }
}

/// The message for a returned value of type `returned` in a function returning `expected`.
pub open spec fn return_message(returned: Type, expected: Type) -> Seq<char> {
    "Cannot return value of type "@ + returned.type_text() + " in function returning "@
        + expected.type_text()
}

/// The message for a `return` outside any function body.
pub const RETURN_OUTSIDE_FUNCTION: &'static str = "Cannot return in a non function context";

/// The positions among the first `n` whose argument cannot be assigned to the parameter
/// at the same position, in increasing order.
pub open spec fn misfit_positions(params: Seq<Type>, args: Seq<AstNode<Expr>>, n: nat) -> Seq<int>
    decreases n,
{
    if n == 0 {
        Seq::empty()
    } else {
        let prev = misfit_positions(params, args, (n - 1) as nat);
        if assignable(args[n - 1].ty, params[n - 1]) {
            prev
        } else {
            prev.push(n - 1)
        }
    }
}

/// A position is a misfit exactly when it is among the first `n` and its argument cannot
/// be assigned to the parameter at that position; the positions come in increasing order.
pub proof fn law_misfit_positions(params: Seq<Type>, args: Seq<AstNode<Expr>>, n: nat)
    ensures
        forall|i: int| #[trigger] misfit_positions(params, args, n).contains(i) <==> (0 <= i < n
            && !assignable(args[i].ty, params[i])),
        forall|a: int, b: int|
            0 <= a < b < misfit_positions(params, args, n).len() ==> #[trigger] misfit_positions(
                params,
                args,
                n,
            )[a] < #[trigger] misfit_positions(params, args, n)[b],
        forall|a: int|
            0 <= a < misfit_positions(params, args, n).len() ==> 0 <= #[trigger] misfit_positions(
                params,
                args,
                n,
            )[a] < n,
    decreases n,
{
    if n > 0 {
        let m = (n - 1) as nat;
        law_misfit_positions(params, args, m);
        let prev = misfit_positions(params, args, m);
        if !assignable(args[n - 1].ty, params[n - 1]) {
            let cur = prev.push(n - 1);
            assert forall|i: int| #[trigger] cur.contains(i) <==> (0 <= i < n && !assignable(args[i].ty, params[i])) by {
                if i == n - 1 {
                    assert(cur[prev.len() as int] == i);
                } else if cur.contains(i) {
                    let k = choose|k: int| 0 <= k < cur.len() && cur[k] == i;
                    if k == prev.len() {
                        assert(cur[k] == n - 1);
                    }
                    assert(prev[k] == i);
                    assert(prev.contains(i));
                } else if 0 <= i < n && !assignable(args[i].ty, params[i]) {
                    assert(prev.contains(i));
                    let k = choose|k: int| 0 <= k < prev.len() && prev[k] == i;
                    assert(cur[k] == i);
                }
            }
        }
    }
}

/// The diagnostic that a call gives for an argument `i` that does not fit its parameter:
/// at the argument, naming the argument's type and the type of the parameter at the same
/// position.
pub open spec fn misfit_diagnostic(
    params: Seq<Type>,
    args: Seq<AstNode<Expr>>,
    labels: Seq<(SourceSpan, Seq<char>)>,
    i: int,
) -> DiagnosticModel {
    DiagnosticModel {
        location: args[i].location,
        message: "Cannot coerce argument of type "@ + args[i].ty.type_text() + " as parameter of type "@
            + params[i].type_text() + " in function invocation"@,
        labels,
    }
}

proof fn lemma_argument_diagnostics(
    params: Seq<Type>,
    args: Seq<AstNode<Expr>>,
    labels: Seq<(SourceSpan, Seq<char>)>,
    n: nat,
)
    ensures
        argument_diagnostics(params, args, labels, n) == misfit_positions(params, args, n).map_values(
            |i: int| misfit_diagnostic(params, args, labels, i),
        ),
    decreases n,
{
    if n > 0 {
        let m = (n - 1) as nat;
        lemma_argument_diagnostics(params, args, labels, m);
        let i = n - 1;
        assert(coerce_message(args[i].ty, params[i]) == misfit_diagnostic(params, args, labels, i).message);
        let prev = misfit_positions(params, args, m);
        let f = |i: int| misfit_diagnostic(params, args, labels, i);
        if !assignable(args[i].ty, params[i]) {
            assert(prev.push(i).map_values(f) =~= prev.map_values(f).push(f(i)));
        }
    }
}

/// The diagnostics of a call of a function at `location`: one for a wrong number of
/// arguments, then, for each position whose argument cannot be assigned to the parameter at
/// that position, in order, one at that argument naming its type and the parameter's.
pub proof fn law_call_diagnostics_by_position(callee: AstNode<Expr>, args: Seq<AstNode<Expr>>, location: SourceSpan)
    requires
        callee.ty.spec_kind() is Function,
    ensures
        ({
            let params = callee.ty.spec_kind()->Function_0.parameter_types@;
            let labels = declared_labels(callee.ty, "Function declared here"@);
            let n = if params.len() < args.len() { params.len() } else { args.len() };
            let arity = if params.len() != args.len() {
                seq![
                    DiagnosticModel {
                        location,
                        message: "Wrong number of arguments in call - expected: "@ + decimal(params.len())
                            + ", actual "@ + decimal(args.len()),
                        labels,
                    },
                ]
            } else {
                Seq::empty()
            };
            call_diagnostics(callee, args, location) == arity + misfit_positions(params, args, n).map_values(
                |i: int| misfit_diagnostic(params, args, labels, i),
            )
        }),
{
    let params = callee.ty.spec_kind()->Function_0.parameter_types@;
    let labels = declared_labels(callee.ty, "Function declared here"@);
    let n = if params.len() < args.len() { params.len() } else { args.len() };
    lemma_argument_diagnostics(params, args, labels, n);
}

/// A call of a function gives no diagnostic exactly when it has as many arguments as the
/// function has parameters and each argument can be assigned to the parameter at its own
/// position.
pub proof fn law_call_fits_iff_no_diagnostics(callee: AstNode<Expr>, args: Seq<AstNode<Expr>>, location: SourceSpan)
    requires
        callee.ty.spec_kind() is Function,
    ensures
        ({
            let params = callee.ty.spec_kind()->Function_0.parameter_types@;
            call_diagnostics(callee, args, location).len() == 0 <==> (params.len() == args.len()
                && forall|i: int| 0 <= i < args.len() ==> #[trigger] assignable(args[i].ty, params[i]))
        }),
{
    let params = callee.ty.spec_kind()->Function_0.parameter_types@;
    let n = if params.len() < args.len() { params.len() } else { args.len() };
    law_call_diagnostics_by_position(callee, args, location);
    law_misfit_positions(params, args, n);
    let ps = misfit_positions(params, args, n);
    if params.len() == args.len() && ps.len() > 0 {
        assert(ps.contains(ps[0]));
    }
    if params.len() == args.len() && ps.len() == 0 {
        assert forall|i: int| 0 <= i < args.len() implies #[trigger] assignable(args[i].ty, params[i]) by {
            if !assignable(args[i].ty, params[i]) {
                assert(!ps.contains(i));
            }
        }
    }
}

/// Every comparison (`>`, `>=`, `=`, `!=`, `<`, `<=`) has the type `bool`, whatever the
/// types of its operands.
pub proof fn law_comparison_is_bool(f: TypeFactory, operator: Token, left: Type, right: Type, current: Type)
    requires
        operator.inner.token_type == TokenType::Greater || operator.inner.token_type
            == TokenType::GreaterEqual || operator.inner.token_type == TokenType::Equal
            || operator.inner.token_type == TokenType::BangEqual || operator.inner.token_type
            == TokenType::Less || operator.inner.token_type == TokenType::LessEqual,
    ensures
        binary_type(f, operator, left, right, current) == f.spec_bool(),
{
}

/// Any other binary operator keeps the type of its operands when they are equal, and
/// leaves the node's type as it was otherwise.
pub proof fn law_other_operators_keep_operand_type(f: TypeFactory, operator: Token, left: Type, right: Type, current: Type)
    requires
        !(operator.inner.token_type == TokenType::Greater || operator.inner.token_type
            == TokenType::GreaterEqual || operator.inner.token_type == TokenType::Equal
            || operator.inner.token_type == TokenType::BangEqual || operator.inner.token_type
            == TokenType::Less || operator.inner.token_type == TokenType::LessEqual),
    ensures
        binary_type(f, operator, left, right, current) == if type_equal(left, right) {
            left
        } else {
            current
        },
{
}

/// Resolves names and types, and collects diagnostics about what it finds.
pub struct Resolver {
    scopes: Vec<LexicalScope>,
    type_factory: TypeFactory,
    type_checker: TypeChecker,
    diagnostics: Vec<InterpreterDiagnostic>,
}

impl Resolver {
    /// The diagnostics collected so far, in order.
    pub closed spec fn spec_diagnostics(&self) -> Seq<DiagnosticModel> {
        diagnostic_views(self.diagnostics@)
    }

    /// The type factory of the resolver.
    pub closed spec fn spec_type_factory(&self) -> TypeFactory {
        self.type_factory
    }

    /// A resolver that makes types with `type_factory`, without diagnostics.
    pub fn new(type_factory: TypeFactory) -> (r: Self)
        ensures
            r.spec_diagnostics() == Seq::<DiagnosticModel>::empty(),
            r.spec_type_factory() == type_factory,
            r.spec_scopes().len() == 1,
            forall|n: Seq<char>| #[trigger] r.spec_scopes()[0].spec_lookup(n) is None,
    {
        let mut scopes = Vec::new();
        scopes.push(LexicalScope::new());
        let r = Resolver { scopes, type_factory, type_checker: TypeChecker::new(), diagnostics: Vec::new() };
        assert(r.spec_diagnostics() =~= Seq::<DiagnosticModel>::empty());
        r
    }

    /// The scopes, outermost first.
    pub closed spec fn spec_scopes(&self) -> Seq<LexicalScope> {
        self.scopes@
    }

    /// The message for a name declared twice in one scope.
    pub open spec fn already_declared_text(name: Seq<char>) -> Seq<char> {
        "The name '"@ + name + "' already declared"@
    }

    /// Opens a scope inside the others.
    pub fn push_scope(&mut self)
        ensures
            final(self).spec_scopes().len() == old(self).spec_scopes().len() + 1,
            final(self).spec_scopes().drop_last() == old(self).spec_scopes(),
            forall|n: Seq<char>| #[trigger] final(self).spec_scopes().last().spec_lookup(n) is None,
            final(self).spec_diagnostics() == old(self).spec_diagnostics(),
            final(self).spec_type_factory() == old(self).spec_type_factory(),
    {
        self.scopes.push(LexicalScope::new());
        assert(self.scopes@.drop_last() =~= old(self).scopes@);
    }

    /// Closes the innermost scope.
    pub fn pop_scope(&mut self)
        requires
            old(self).spec_scopes().len() > 1,
        ensures
            final(self).spec_scopes() == old(self).spec_scopes().drop_last(),
            final(self).spec_diagnostics() == old(self).spec_diagnostics(),
            final(self).spec_type_factory() == old(self).spec_type_factory(),
    {
        self.scopes.pop();
    }

    /// Declares `symbol` under `name` in the innermost scope. If that scope declares the
    /// name already, the scopes stay as they are and a diagnostic is added at the new
    /// declaration, labelled `is already declared here` at the first one.
    pub fn add_symbol_to_scope(&mut self, name: &str, symbol: Symbol)
        requires
            old(self).spec_scopes().len() > 0,
        ensures
            final(self).spec_type_factory() == old(self).spec_type_factory(),
            final(self).spec_scopes().len() == old(self).spec_scopes().len(),
            final(self).spec_scopes().drop_last() == old(self).spec_scopes().drop_last(),
            match old(self).spec_scopes().last().spec_lookup(name@) {
                Some(previous) => {
                    &&& final(self).spec_scopes() == old(self).spec_scopes()
                    &&& final(self).spec_diagnostics() == old(self).spec_diagnostics().push(
                        DiagnosticModel {
                            location: symbol.declaration_site,
                            message: Self::already_declared_text(name@),
                            labels: seq![(previous.declaration_site, "is already declared here"@)],
                        },
                    )
                },
                None => {
                    &&& final(self).spec_diagnostics() == old(self).spec_diagnostics()
                    &&& forall|n: Seq<char>| #[trigger] final(self).spec_scopes().last().spec_lookup(n)
                        == if n == name@ {
                        Some(symbol)
                    } else {
                        old(self).spec_scopes().last().spec_lookup(n)
                    }
                },
            },
    {
        let mut scope = self.scopes.pop().unwrap();
        let ghost before = scope;
        let mut message = owned("The name '");
        push_str(&mut message, name);
        push_str(&mut message, "' already declared");
        let mut d = InterpreterDiagnostic::new(&symbol.declaration_site, message);
        let mut existing = false;
        match scope.get(name) {
            Some(previous) => {
                d.add_label(&previous.declaration_site, owned("is already declared here"));
                existing = true;
            },
            None => {},
        }
        if existing {
            self.scopes.push(scope);
            assert(self.scopes@ =~= old(self).scopes@);
            assert(d@.message =~= Self::already_declared_text(name@));
            assert(d@.labels =~= seq![(before.spec_lookup(name@)->0.declaration_site, "is already declared here"@)]);
            self.diagnose(d);
        } else {
            scope.declare(name, symbol);
            self.scopes.push(scope);
            assert(self.scopes@.drop_last() =~= old(self).scopes@.drop_last());
        }
    }

    /// Looks up `name` from the innermost scope outwards (see `definition_of`).
    pub fn lookup(&self, name: &str) -> (r: Option<(i32, &Symbol)>)
        requires
            self.spec_scopes().len() <= i32::MAX,
        ensures
            r matches Some((d, s)) ==> definition_of(self.spec_scopes(), name@) == Some((d as int, *s)),
            r is None ==> definition_of(self.spec_scopes(), name@) is None,
    {
        get_definition_distance_and_symbol(&self.scopes, name)
    }

    /// The diagnostics collected so far, in order.
    pub fn diagnostics(&self) -> (d: &Vec<InterpreterDiagnostic>)
        ensures
            diagnostic_views(d@) == self.spec_diagnostics(),
    {
        &self.diagnostics
    }

    /// Adds `diagnostic` after the others.
    pub fn diagnose(&mut self, diagnostic: InterpreterDiagnostic)
        ensures
            final(self).spec_diagnostics() == old(self).spec_diagnostics().push(diagnostic@),
            final(self).spec_type_factory() == old(self).spec_type_factory(),
            final(self).spec_scopes() == old(self).spec_scopes(),
    {
        self.diagnostics.push(diagnostic);
        assert(diagnostic_views(self.diagnostics@) =~= diagnostic_views(old(self).diagnostics@).push(
            diagnostic@,
        ));
    }

    /// Moves `others` after the diagnostics collected so far.
    fn append_diagnostics(&mut self, others: &mut Vec<InterpreterDiagnostic>)
        ensures
            final(self).spec_diagnostics() == old(self).spec_diagnostics() + diagnostic_views(old(others)@),
            final(self).spec_type_factory() == old(self).spec_type_factory(),
            final(self).spec_scopes() == old(self).spec_scopes(),
    {
        self.diagnostics.append(others);
        assert(diagnostic_views(self.diagnostics@) =~= diagnostic_views(old(self).diagnostics@)
            + diagnostic_views(old(others)@));
    }

    /// A diagnostic with `message` at `location`, labelled `text` where `ty` was declared
    /// (see `declared_labels`).
    fn labelled(location: &SourceSpan, message: String, ty: &Type, text: &str) -> (d: InterpreterDiagnostic)
        ensures
            d@ == (DiagnosticModel {
                location: *location,
                message: message@,
                labels: declared_labels(*ty, text@),
            }),
    {
        let mut d = InterpreterDiagnostic::new(location, message);
        let site = ty.declaration_site();
        if !site.is_ephemeral() {
            d.add_label(site, owned(text));
            assert(d@.labels =~= declared_labels(*ty, text@));
        } else {
            assert(d@.labels =~= declared_labels(*ty, text@));
        }
        d
    }

    /// What resolution does with a call at `location` once its callee and arguments are
    /// resolved: the call's type (see `call_type`), with the diagnostics of
    /// `call_diagnostics` added after the others.
    pub fn check_call(&mut self, call: &CallExpr, location: &SourceSpan) -> (t: Type)
        ensures
            t == call_type(call.callee, old(self).spec_type_factory().spec_unresolved()),
            final(self).spec_diagnostics() == old(self).spec_diagnostics() + call_diagnostics(
                call.callee,
                call.arguments@,
                *location,
            ),
            final(self).spec_type_factory() == old(self).spec_type_factory(),
            final(self).spec_scopes() == old(self).spec_scopes(),
    {
        let callee_ty = &call.callee.ty;
        match callee_ty.kind() {
            TypeKind::Function(f) => {
                let ghost labels = declared_labels(*callee_ty, "Function declared here"@);
                let ghost start = self.spec_diagnostics();
                let params = &f.parameter_types;
                let args = &call.arguments;
                let ghost arity = if params@.len() != args@.len() {
                    seq![
                        DiagnosticModel {
                            location: *location,
                            message: arity_message(params@.len(), args@.len()),
                            labels,
                        },
                    ]
                } else {
                    Seq::empty()
                };
                if params.len() != args.len() {
                    let mut message = owned("Wrong number of arguments in call - expected: ");
                    push_decimal(&mut message, params.len() as u64);
                    push_str(&mut message, ", actual ");
                    push_decimal(&mut message, args.len() as u64);
                    assert(message@ =~= arity_message(params@.len(), args@.len()));
                    let d = Self::labelled(location, message, callee_ty, "Function declared here");
                    self.diagnose(d);
                    assert(self.spec_diagnostics() =~= start + arity);
                } else {
                    assert(start + arity =~= start);
                }
                let n: usize = if params.len() < args.len() {
                    params.len()
                } else {
                    args.len()
                };
                let mut i: usize = 0;
                while i < n
                    invariant
                        n <= params@.len(),
                        n <= args@.len(),
                        i <= n,
                        labels == declared_labels(*callee_ty, "Function declared here"@),
                        self.spec_type_factory() == old(self).spec_type_factory(),
                        self.spec_scopes() == old(self).spec_scopes(),
                        self.spec_diagnostics() == start + arity + argument_diagnostics(
                            params@,
                            args@,
                            labels,
                            i as nat,
                        ),
                    decreases n - i,
                {
                    let arg = &args[i];
                    let param = &params[i];
                    if !self.type_checker.is_assignable_to(&arg.ty, param) {
                        let mut message = owned("Cannot coerce argument of type ");
                        arg.ty.push_display(&mut message);
                        push_str(&mut message, " as parameter of type ");
                        param.push_display(&mut message);
                        push_str(&mut message, " in function invocation");
                        assert(message@ =~= coerce_message(arg.ty, *param));
                        let d = Self::labelled(&arg.location, message, callee_ty, "Function declared here");
                        self.diagnose(d);
                    }
                    i = i + 1;
                    assert(self.spec_diagnostics() =~= start + arity + argument_diagnostics(
                        params@,
                        args@,
                        labels,
                        i as nat,
                    ));
                }
                f.return_type.share()
            },
            _ => {
                let mut message = owned("Expected a function to call, but instead found type ");
                callee_ty.push_display(&mut message);
                let d = InterpreterDiagnostic::new(&call.callee.location, message);
                self.diagnose(d);
                assert(d@.message =~= not_a_function_message(*callee_ty));
                self.type_factory.unresolved()
            },
        }
    }

    /// What resolution does with a struct value at `location` once its type expression and
    /// the values of its initializers are resolved. If the type expression is a struct
    /// type, that type, with the diagnostics of `struct_value_diagnostics` (the fields
    /// left out reported in the order of their names) added after the others; otherwise
    /// `unresolved`, with a diagnostic at the type expression.
    pub fn check_create_struct(&mut self, create: &CreateStructExpr, location: &SourceSpan) -> (t: Type)
        requires
            create.type_expression.ty.spec_kind() matches TypeKind::Struct(s) ==> field_names_unique(
                s.fields@,
            ),
        ensures
            final(self).spec_type_factory() == old(self).spec_type_factory(),
            final(self).spec_scopes() == old(self).spec_scopes(),
            match create.type_expression.ty.spec_kind() {
                TypeKind::Struct(s) => {
                    &&& t == create.type_expression.ty
                    &&& exists|sorted: Seq<StructField>|
                        #![trigger names_sorted(sorted)]
                        sorted.to_multiset() == s.fields@.to_multiset() && names_sorted(sorted)
                    &&& forall|sorted: Seq<StructField>|
                        #![trigger names_sorted(sorted)]
                        sorted.to_multiset() == s.fields@.to_multiset() && names_sorted(sorted)
                            ==> final(self).spec_diagnostics() == old(self).spec_diagnostics()
                            + struct_value_diagnostics(
                            create.type_expression.ty,
                            s.fields@,
                            create.field_initializers@,
                            *location,
                            sorted,
                        )
                },
                _ => {
                    &&& t == old(self).spec_type_factory().spec_unresolved()
                    &&& final(self).spec_diagnostics() == old(self).spec_diagnostics().push(
                        DiagnosticModel {
                            location: create.type_expression.location,
                            message: not_a_struct_message(create.type_expression.ty),
                            labels: Seq::empty(),
                        },
                    )
                },
            },
    {
        let ty = &create.type_expression.ty;
        match ty.kind() {
            TypeKind::Struct(st) => {
                let fields = &st.fields;
                let inits = &create.field_initializers;
                let ghost start = self.spec_diagnostics();
                let mut seen: Vec<(String, SourceSpan)> = Vec::new();
                let mut others: Vec<InterpreterDiagnostic> = Vec::new();
                let mut i: usize = 0;
                while i < inits.len()
                    invariant
                        i <= inits@.len(),
                        seen_of(seen@) == init_check(*ty, fields@, inits@, i as nat).seen,
                        diagnostic_views(others@) == init_check(*ty, fields@, inits@, i as nat).others,
                        self.spec_diagnostics() == start + init_check(*ty, fields@, inits@, i as nat).repeated,
                        self.spec_type_factory() == old(self).spec_type_factory(),
                        self.spec_scopes() == old(self).spec_scopes(),
                    decreases inits.len() - i,
                {
                    let init = &inits[i];
                    let name = init.field_name.lexeme();
                    let ghost before = others@;
                    match find_field(fields, name) {
                        None => {
                            let mut message = owned("Struct ");
                            ty.push_display(&mut message);
                            push_str(&mut message, " does not have a field named '");
                            push_str(&mut message, name);
                            push_str(&mut message, "'");
                            assert(message@ =~= unknown_field_message(*ty, name@));
                            let d = Self::labelled(init.field_name.location(), message, ty, "Struct declared here");
                            others.push(d);
                            assert(diagnostic_views(others@) =~= diagnostic_views(before).push(d@));
                        },
                        Some(f) => {
                            if !self.type_checker.is_assignable_to(&init.expression.ty, &f.ty) {
                                let mut message = owned("Cannot coerce field initializer value of type ");
                                init.expression.ty.push_display(&mut message);
                                push_str(&mut message, " to field '");
                                push_str(&mut message, name);
                                push_str(&mut message, "' type ");
                                f.ty.push_display(&mut message);
                                push_str(&mut message, " in construction of struct ");
                                ty.push_display(&mut message);
                                assert(message@ =~= field_coerce_message(init.expression.ty, name@, f.ty, *ty));
                                let d = Self::labelled(init.field_name.location(), message, ty, "Struct declared here");
                                others.push(d);
                                assert(diagnostic_views(others@) =~= diagnostic_views(before).push(d@));
                            }
                            match seen_get(&seen, name) {
                                Some(previous) => {
                                    let mut message = owned("Field ");
                                    let shown = init.field_name.to_display_string();
                                    push_str(&mut message, shown.as_str());
                                    push_str(&mut message, " is already initialized");
                                    let mut d = InterpreterDiagnostic::new(init.field_name.location(), message);
                                    d.add_label(previous, owned("Already initialized here"));
                                    assert(d@.labels =~= seq![(seen_of(seen@)[name@], "Already initialized here"@)]);
                                    self.diagnose(d);
                                },
                                None => {},
                            }
                            let ghost old_seen = seen@;
                            seen.push((owned(name), init.field_name.location().duplicate()));
                            assert(seen@.drop_last() =~= old_seen);
                        },
                    }
                    i = i + 1;
                }
                let ghost c = init_check(*ty, fields@, inits@, inits@.len());
                self.append_diagnostics(&mut others);
                let sorted = sorted_fields(fields);
                let ghost sorted_view = sorted@.map_values(|f: &StructField| *f);
                let mut j: usize = 0;
                while j < sorted.len()
                    invariant
                        j <= sorted@.len(),
                        sorted_view == sorted@.map_values(|f: &StructField| *f),
                        seen_of(seen@) == c.seen,
                        self.spec_diagnostics() == start + c.repeated + c.others + missing_diagnostics(
                            *ty,
                            sorted_view,
                            c.seen,
                            *location,
                            j as nat,
                        ),
                        self.spec_type_factory() == old(self).spec_type_factory(),
                        self.spec_scopes() == old(self).spec_scopes(),
                    decreases sorted.len() - j,
                {
                    let f = sorted[j];
                    assert(sorted_view[j as int] == *f);
                    if seen_get(&seen, f.name.as_str()).is_none() {
                        let mut message = owned("Struct initializer for struct ");
                        ty.push_display(&mut message);
                        push_str(&mut message, " is missing field '");
                        push_str(&mut message, f.name.as_str());
                        push_str(&mut message, "' of type '");
                        f.ty.push_display(&mut message);
                        push_str(&mut message, "'");
                        assert(message@ =~= missing_field_message(*ty, f.name@, f.ty));
                        let d = Self::labelled(location, message, ty, "Struct declared here");
                        self.diagnose(d);
                    }
                    j = j + 1;
                    assert(self.spec_diagnostics() =~= start + c.repeated + c.others + missing_diagnostics(
                        *ty,
                        sorted_view,
                        c.seen,
                        *location,
                        j as nat,
                    ));
                }
                assert(self.spec_diagnostics() =~= start + struct_value_diagnostics(*ty, fields@, inits@, *location, sorted_view));
                proof {
                    lemma_unique_names_determine_fields(fields@);
                    assert forall|q: Seq<StructField>|
                        q.to_multiset() == fields@.to_multiset() && #[trigger] names_sorted(q) implies self.spec_diagnostics()
                            == start + struct_value_diagnostics(*ty, fields@, inits@, *location, q) by {
                        law_sorted_fields_unique(sorted_view, q);
                    }
                }
                ty.share()
            },
            _ => {
                let mut message = owned("Expected a struct to create, but instead found type ");
                ty.push_display(&mut message);
                assert(message@ =~= not_a_struct_message(*ty));
                let d = InterpreterDiagnostic::new(&create.type_expression.location, message);
                self.diagnose(d);
                self.type_factory.unresolved()
            },
        }
    }

    /// The type of a literal (see `literal_type`).
    pub fn check_literal(&self, literal: &LiteralExpr) -> (t: Type)
        ensures
            t == literal_type(self.spec_type_factory(), *literal),
    {
        match literal {
            LiteralExpr::Str(_) => self.type_factory.str(),
            LiteralExpr::F64(_) => self.type_factory.f64_type(),
            LiteralExpr::I64(_) => self.type_factory.i64(),
            LiteralExpr::Bool(_) => self.type_factory.bool(),
            LiteralExpr::Unit => self.type_factory.unit(),
        }
    }

    /// The type of a binary expression with resolved operands (see `binary_type`).
    pub fn check_binary(&self, operator: &Token, left: &Type, right: &Type, current: &Type) -> (t: Type)
        ensures
            t == binary_type(self.spec_type_factory(), *operator, *left, *right, *current),
    {
        if operator.is_comparison_operator() {
            self.type_factory.bool()
        } else if types_equal(left, right) {
            left.share()
        } else {
            current.share()
        }
    }

    /// What resolution does with an `if` at `location` once its parts are resolved: its
    /// type is that of the `then` branch, with the diagnostics of `if_diagnostics` added
    /// after the others.
    pub fn check_if(&mut self, if_expr: &IfExpr, location: &SourceSpan) -> (t: Type)
        ensures
            t == if_expr.then_expr.ty,
            final(self).spec_diagnostics() == old(self).spec_diagnostics() + if_diagnostics(
                old(self).spec_type_factory(),
                *if_expr,
                *location,
            ),
            final(self).spec_type_factory() == old(self).spec_type_factory(),
            final(self).spec_scopes() == old(self).spec_scopes(),
    {
        let ghost start = self.spec_diagnostics();
        let condition_type = &if_expr.condition.ty;
        if !condition_type.is_bool() {
            let mut message = owned("Condition in if statement must evaluate to a boolean, but was of type ");
            condition_type.push_display(&mut message);
            push_str(&mut message, " instead");
            assert(message@ =~= condition_message(*condition_type));
            self.diagnose(InterpreterDiagnostic::new(&if_expr.condition.location, message));
        }
        let unit = self.type_factory.unit();
        let else_type = match &if_expr.else_expr {
            Some(e) => &e.ty,
            None => &unit,
        };
        let then_type = &if_expr.then_expr.ty;
        if !types_equal(else_type, then_type) {
            let mut message = owned(
                "Then and else branch of if statement must evaluate to the same type, but then evaluates to ",
            );
            then_type.push_display(&mut message);
            push_str(&mut message, ", while else evaluates to ");
            else_type.push_display(&mut message);
            assert(message@ =~= branches_message(*then_type, *else_type));
            self.diagnose(InterpreterDiagnostic::new(location, message));
        }
        assert(self.spec_diagnostics() =~= start + if_diagnostics(old(self).spec_type_factory(), *if_expr, *location));
        then_type.share()
    }

    /// What resolution does with an assignment at `location` once its value is resolved.
    /// The first part of the destination is looked up (see `definition_of`). If it is not
    /// found: no distance, type `unresolved`, and a diagnostic at the destination. If it
    /// is: its distance, and the variable's type, unless the value cannot be assigned to
    /// it; then the type is `unresolved` and a diagnostic at `location` is labelled with
    /// where the variable was declared.
    pub fn check_assign(&mut self, assign: &AssignExpr, location: &SourceSpan) -> (r: (Option<i32>, Type))
        requires
            old(self).spec_scopes().len() <= i32::MAX,
            assign.destination.data.parts@.len() > 0,
        ensures
            final(self).spec_type_factory() == old(self).spec_type_factory(),
            final(self).spec_scopes() == old(self).spec_scopes(),
            match definition_of(old(self).spec_scopes(), assign.destination.data.parts@[0].inner.value@) {
                None => {
                    &&& r.0 is None
                    &&& r.1 == old(self).spec_type_factory().spec_unresolved()
                    &&& final(self).spec_diagnostics() == old(self).spec_diagnostics().push(
                        DiagnosticModel {
                            location: assign.destination.location,
                            message: "Variable '"@ + name_text(assign.destination) + "' is not defined here"@,
                            labels: Seq::empty(),
                        },
                    )
                },
                Some((distance, symbol)) => {
                    &&& r.0 == Some(distance as i32)
                    &&& if assignable(assign.value.ty, symbol.ty) {
                        &&& r.1 == symbol.ty
                        &&& final(self).spec_diagnostics() == old(self).spec_diagnostics()
                    } else {
                        &&& r.1 == old(self).spec_type_factory().spec_unresolved()
                        &&& final(self).spec_diagnostics() == old(self).spec_diagnostics().push(
                            DiagnosticModel {
                                location: *location,
                                message: "Expression value of type "@ + assign.value.ty.type_text()
                                    + " cannot be assigned to variable '"@ + name_text(assign.destination)
                                    + "' of type "@ + symbol.ty.type_text(),
                                labels: seq![
                                    (
                                        symbol.declaration_site,
                                        "is declared as "@ + symbol.ty.type_text() + " here"@,
                                    ),
                                ],
                            },
                        )
                    }
                },
            },
    {
        let destination = &assign.destination;
        let shown = destination.to_display_string();
        let found = get_definition_distance_and_symbol(&self.scopes, destination.data.parts[0].lexeme());
        match found {
            Some((distance, symbol)) => {
                let destination_type = symbol.ty.share();
                let declaration_site = symbol.declaration_site.duplicate();
                if !self.type_checker.is_assignable_to(&assign.value.ty, &destination_type) {
                    let mut message = owned("Expression value of type ");
                    assign.value.ty.push_display(&mut message);
                    push_str(&mut message, " cannot be assigned to variable '");
                    push_str(&mut message, shown.as_str());
                    push_str(&mut message, "' of type ");
                    destination_type.push_display(&mut message);
                    let mut label = owned("is declared as ");
                    destination_type.push_display(&mut label);
                    push_str(&mut label, " here");
                    let mut d = InterpreterDiagnostic::new(location, message);
                    d.add_label(&declaration_site, label);
                    assert(d@.labels =~= seq![(declaration_site, label@)]);
                    self.diagnose(d);
                    (Some(distance), self.type_factory.unresolved())
                } else {
                    (Some(distance), destination_type)
                }
            },
            None => {
                let mut message = owned("Variable '");
                push_str(&mut message, shown.as_str());
                push_str(&mut message, "' is not defined here");
                self.diagnose(InterpreterDiagnostic::new(&destination.location, message));
                (None, self.type_factory.unresolved())
            },
        }
    }

    /// What resolution does with `let name = value` at `location` once the value is
    /// resolved, and the declared type, if any, too: the variable's type is the declared
    /// one, or else the value's. If the value cannot be assigned to it, a diagnostic at
    /// `location` is added and the statement's type is `unresolved`; otherwise it is the
    /// variable's type. Either way the symbol of `name` in the innermost scope becomes
    /// defined, with the variable's type.
    pub fn check_let(&mut self, let_stmt: &LetStmt, declared_type: Option<&Type>, location: &SourceSpan) -> (t: Type)
        requires
            old(self).spec_scopes().len() > 0,
            old(self).spec_scopes().last().spec_lookup(let_stmt.name.inner.value@) is Some,
        ensures
            ({
                let value_ty = let_stmt.expression.ty;
                let variable_ty = match declared_type {
                    Some(d) => *d,
                    None => value_ty,
                };
                let name = let_stmt.name.inner.value@;
                let previous = old(self).spec_scopes().last().spec_lookup(name)->0;
                &&& final(self).spec_type_factory() == old(self).spec_type_factory()
                &&& final(self).spec_scopes().len() == old(self).spec_scopes().len()
                &&& final(self).spec_scopes().drop_last() == old(self).spec_scopes().drop_last()
                &&& forall|n: Seq<char>| #[trigger] final(self).spec_scopes().last().spec_lookup(n) == if n == name {
                    Some(Symbol { declaration_site: previous.declaration_site, is_defined: true, ty: variable_ty })
                } else {
                    old(self).spec_scopes().last().spec_lookup(n)
                }
                &&& if assignable(value_ty, variable_ty) {
                    &&& t == variable_ty
                    &&& final(self).spec_diagnostics() == old(self).spec_diagnostics()
                } else {
                    &&& t == old(self).spec_type_factory().spec_unresolved()
                    &&& final(self).spec_diagnostics() == old(self).spec_diagnostics().push(
                        DiagnosticModel {
                            location: *location,
                            message: "Expression value of type "@ + value_ty.type_text()
                                + " cannot be assigned to variable '"@ + name + "' declared to be type "@
                                + variable_ty.type_text(),
                            labels: Seq::empty(),
                        },
                    )
                }
            }),
    {
        let name = let_stmt.name.lexeme();
        let value_type = &let_stmt.expression.ty;
        let variable_type = match declared_type {
            Some(d) => d.share(),
            None => value_type.share(),
        };
        let t = if !self.type_checker.is_assignable_to(value_type, &variable_type) {
            let mut message = owned("Expression value of type ");
            value_type.push_display(&mut message);
            push_str(&mut message, " cannot be assigned to variable '");
            push_str(&mut message, name);
            push_str(&mut message, "' declared to be type ");
            variable_type.push_display(&mut message);
            self.diagnose(InterpreterDiagnostic::new(location, message));
            self.type_factory.unresolved()
        } else {
            variable_type.share()
        };
        let mut scope = self.scopes.pop().unwrap();
        let declaration_site = match scope.get(name) {
            Some(previous) => previous.declaration_site.duplicate(),
            None => SourceSpan::ephemeral(),
        };
        scope.redefine(name, Symbol { declaration_site, is_defined: true, ty: variable_type });
        self.scopes.push(scope);
        assert(self.scopes@.drop_last() =~= old(self).scopes@.drop_last());
        t
    }

    /// Opens the scope of the body of a function returning `declared_return_type`, as
    /// declared at `return_type_declaration_site`.
    pub fn push_function_scope(&mut self, declared_return_type: Type, return_type_declaration_site: SourceSpan)
        ensures
            final(self).spec_scopes().len() == old(self).spec_scopes().len() + 1,
            final(self).spec_scopes().drop_last() == old(self).spec_scopes(),
            forall|n: Seq<char>| #[trigger] final(self).spec_scopes().last().spec_lookup(n) is None,
            final(self).spec_scopes().last().spec_function() == Some(
                CurrentFunctionInfo { declared_return_type, return_type_declaration_site },
            ),
            final(self).spec_diagnostics() == old(self).spec_diagnostics(),
            final(self).spec_type_factory() == old(self).spec_type_factory(),
    {
        let scope = LexicalScope::function_body(declared_return_type, return_type_declaration_site);
        self.scopes.push(scope);
        assert(self.scopes@.drop_last() =~= old(self).scopes@);
    }

    /// What resolution does with `return value` once the value is resolved. Outside any
    /// function body it fails with `RETURN_OUTSIDE_FUNCTION`. Inside, the innermost
    /// function body decides: unless the value can be assigned to its declared return
    /// type, a diagnostic at the value is added, labelled where the return type was
    /// declared. The type of the `return` is `never`.
    pub fn check_return(&mut self, value: &AstNode<Expr>) -> (r: Result<Type, String>)
        ensures
            final(self).spec_type_factory() == old(self).spec_type_factory(),
            final(self).spec_scopes() == old(self).spec_scopes(),
            match innermost_function(old(self).spec_scopes(), old(self).spec_scopes().len()) {
                None => r matches Err(m) && m@ == RETURN_OUTSIDE_FUNCTION@
                    && final(self).spec_diagnostics() == old(self).spec_diagnostics(),
                Some(k) => {
                    let info = old(self).spec_scopes()[k].spec_function()->0;
                    &&& r == Ok::<Type, String>(old(self).spec_type_factory().spec_never())
                    &&& final(self).spec_diagnostics() == if assignable(value.ty, info.declared_return_type) {
                        old(self).spec_diagnostics()
                    } else {
                        old(self).spec_diagnostics().push(
                            DiagnosticModel {
                                location: value.location,
                                message: return_message(value.ty, info.declared_return_type),
                                labels: seq![
                                    (
                                        info.return_type_declaration_site,
                                        "declared with return type "@
                                            + info.declared_return_type.type_text() + " here"@,
                                    ),
                                ],
                            },
                        )
                    }
                },
            },
    {
        let mut k = self.scopes.len();
        while k > 0
            invariant
                k <= self.scopes@.len(),
                *self == *old(self),
                innermost_function(self.scopes@, self.scopes@.len()) == innermost_function(self.scopes@, k as nat),
            decreases k,
        {
            match &self.scopes[k - 1].current_function {
                Some(info) => {
                    let expected = info.declared_return_type.share();
                    let site = info.return_type_declaration_site.duplicate();
                    if !self.type_checker.is_assignable_to(&value.ty, &expected) {
                        let mut message = owned("Cannot return value of type ");
                        value.ty.push_display(&mut message);
                        push_str(&mut message, " in function returning ");
                        expected.push_display(&mut message);
                        assert(message@ =~= return_message(value.ty, expected));
                        let mut label = owned("declared with return type ");
                        expected.push_display(&mut label);
                        push_str(&mut label, " here");
                        let mut d = InterpreterDiagnostic::new(&value.location, message);
                        d.add_label(&site, label);
                        assert(d@.labels =~= seq![(site, label@)]);
                        self.diagnose(d);
                    }
                    return Ok(self.type_factory.never());
                },
                None => {},
            }
            k = k - 1;
        }
        Err(owned(RETURN_OUTSIDE_FUNCTION))
    }
}

} // verus!
