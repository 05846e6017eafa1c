//! Types of the language: a name, where they were declared, and what kind of type they are.
use vstd::prelude::*;
use std::rc::Rc;
use crate::compiler::frontend::lex::token::Token;
use crate::compiler::infra::full_name::{joined, FullName};
use crate::compiler::infra::shared::share;
use crate::compiler::infra::source_span::SourceSpan;
use crate::text::push_str;

verus! {

/// A type, shared by everything that refers to it.
#[derive(Clone)]
pub struct Type {
    pub(crate) inner: Rc<TypeInner>,
}

/// The name, the declaration site and the kind of a type.
pub struct TypeInner {
    pub name: FullName,
    pub declaration_site: SourceSpan,
    pub kind: TypeKind,
}

/// The kinds of types.
pub enum TypeKind {
    /// The top type, which everything can be assigned to.
    Any,
    /// The bottom type: the type of `return` expressions and of functions that never return.
    Never,
    Unknown,
    /// A type whose resolution failed.
    Unresolved,
    Primitive(PrimitiveType),
    Type,
    Namespace,
    Function(FunctionType),
    Struct(StructType),
    Trait(TraitType),
}

/// The type of a function: its parameter types and its return type.
pub struct FunctionType {
    pub parameter_types: Vec<Type>,
    pub return_type: Type,
}

/// A struct type: its name token and its fields, no two of the same name.
pub struct StructType {
    pub name: Token,
    pub fields: Vec<StructField>,
}

/// No two fields have the same name: the fields form a map by name.
pub open spec fn field_names_unique(fields: Seq<StructField>) -> bool {
    forall|i: int, j: int|
        0 <= i < fields.len() && 0 <= j < fields.len() && i != j ==> #[trigger] fields[i].name@
            != #[trigger] fields[j].name@
}

/// A trait type: its name token.
pub struct TraitType {
    pub name: Token,
}

/// A field of a struct: its name token, its name and its type.
pub struct StructField {
    pub name_token: Token,
    pub name: String,
    pub ty: Type,
}

/// The primitive types.
#[derive(Debug, PartialEq, Eq, Copy, Clone, Structural)]
pub enum PrimitiveType {
    Bool,
    F64,
    I64,
    Str,
}

/// Two kinds of types are equal: the same kind without parts, the same primitive, function
/// types with equal parameter and return types, or struct or trait types of the same name.
pub closed spec fn kind_equal(a: TypeKind, b: TypeKind) -> bool
    decreases a, 0nat,
{
    match a {
        TypeKind::Any => b is Any,
        TypeKind::Never => b is Never,
        TypeKind::Unknown => b is Unknown,
        TypeKind::Unresolved => b is Unresolved,
        TypeKind::Type => b is Type,
        TypeKind::Namespace => b is Namespace,
        TypeKind::Primitive(p) => b matches TypeKind::Primitive(q) && p == q,
        TypeKind::Function(f) => match b {
            TypeKind::Function(g) => f.parameter_types@.len() == g.parameter_types@.len()
                && types_equal_upto(
                f.parameter_types@,
                g.parameter_types@,
                f.parameter_types@.len() as int,
            ) && kind_equal(f.return_type.inner.kind, g.return_type.inner.kind),
            _ => false,
        },
        TypeKind::Struct(s) => b matches TypeKind::Struct(t) && s.name.inner.value@
            == t.name.inner.value@,
        TypeKind::Trait(s) => b matches TypeKind::Trait(t) && s.name.inner.value@
            == t.name.inner.value@,
    }
}

/// The first `n` types of `s` and of `t` are pairwise equal.
pub closed spec fn types_equal_upto(s: Seq<Type>, t: Seq<Type>, n: int) -> bool
    decreases s, n,
{
    if n <= 0 || n > s.len() || n > t.len() {
        true
    } else {
        types_equal_upto(s, t, n - 1) && kind_equal(s[n - 1].inner.kind, t[n - 1].inner.kind)
    }
}

proof fn lemma_types_equal_upto(s: Seq<Type>, t: Seq<Type>, n: int, i: int)
    requires
        0 <= i < n <= s.len(),
        n <= t.len(),
        types_equal_upto(s, t, n),
    ensures
        kind_equal(s[i].inner.kind, t[i].inner.kind),
    decreases n,
{
    if i < n - 1 {
        lemma_types_equal_upto(s, t, n - 1, i);
    }
}

/// Two types are equal when their kinds are (see `kind_equal`); names do not matter.
pub closed spec fn type_equal(a: Type, b: Type) -> bool {
    kind_equal(a.inner.kind, b.inner.kind)
}

impl Type {
    /// The kind of the type, in specifications.
    pub closed spec fn spec_kind(&self) -> TypeKind {
        self.inner.kind
    }

    /// The name of the type, in specifications.
    pub closed spec fn spec_name(&self) -> FullName {
        self.inner.name
    }

    /// The declaration site of the type, in specifications.
    pub closed spec fn spec_declaration_site(&self) -> SourceSpan {
        self.inner.declaration_site
    }

    /// How the type is shown: its name in angle brackets.
    pub open spec fn type_text(&self) -> Seq<char> {
        "❬"@ + joined(self.spec_name()@) + "❭"@
    }

    /// A type named `name` of `kind`, declared at `declaration_site`.
    pub(crate) fn new(name: FullName, kind: TypeKind, declaration_site: SourceSpan) -> (t: Self)
        ensures
            t.spec_name() == name,
            t.spec_kind() == kind,
            t.spec_declaration_site() == declaration_site,
    {
        Type { inner: Rc::new(TypeInner { name, declaration_site, kind }) }
    }

    /// Another reference to the same type.
    pub(crate) fn share(&self) -> (t: Self)
        ensures
            t == *self,
    {
        Type { inner: share(&self.inner) }
    }

    /// Whether the type is of kind `Unknown`.
    pub fn is_unknown(&self) -> (b: bool)
        ensures
            b == (self.spec_kind() is Unknown),
    {
        match self.inner.kind {
            TypeKind::Unknown => true,
            _ => false,
        }
    }

    /// Whether the type is the primitive `Bool`.
    pub fn is_bool(&self) -> (b: bool)
        ensures
            b == (self.spec_kind() matches TypeKind::Primitive(p) && p == PrimitiveType::Bool),
    {
        match self.inner.kind {
            TypeKind::Primitive(PrimitiveType::Bool) => true,
            _ => false,
        }
    }

    /// The kind of the type.
    pub fn kind(&self) -> (k: &TypeKind)
        ensures
            *k == self.spec_kind(),
    {
        &self.inner.kind
    }

    /// Where the type was declared.
    pub fn declaration_site(&self) -> (s: &SourceSpan)
        ensures
            *s == self.spec_declaration_site(),
    {
        &self.inner.declaration_site
    }

    /// Appends how the type is shown (see `type_text`).
    pub fn push_display(&self, out: &mut String)
        ensures
            final(out)@ == old(out)@ + self.type_text(),
    {
        push_str(out, "❬");
        self.inner.name.push_display(out);
        push_str(out, "❭");
        assert(out@ =~= old(out)@ + self.type_text());
    }

    /// How the type is shown (see `type_text`).
    pub fn to_display_string(&self) -> (s: String)
        ensures
            s@ == self.type_text(),
    {
        let mut s = String::new();
        self.push_display(&mut s);
        assert(s@ =~= self.type_text());
        s
    }
}

/// Whether two types are equal (see `kind_equal`).
pub fn types_equal(a: &Type, b: &Type) -> (r: bool)
    ensures
        r == type_equal(*a, *b),
    decreases *a,
{
    match &a.inner.kind {
        TypeKind::Any => match &b.inner.kind {
            TypeKind::Any => true,
            _ => false,
        },
        TypeKind::Never => match &b.inner.kind {
            TypeKind::Never => true,
            _ => false,
        },
        TypeKind::Unknown => match &b.inner.kind {
            TypeKind::Unknown => true,
            _ => false,
        },
        TypeKind::Unresolved => match &b.inner.kind {
            TypeKind::Unresolved => true,
            _ => false,
        },
        TypeKind::Type => match &b.inner.kind {
            TypeKind::Type => true,
            _ => false,
        },
        TypeKind::Namespace => match &b.inner.kind {
            TypeKind::Namespace => true,
            _ => false,
        },
        TypeKind::Primitive(p) => match &b.inner.kind {
            TypeKind::Primitive(q) => *p == *q,
            _ => false,
        },
        TypeKind::Struct(s) => match &b.inner.kind {
            TypeKind::Struct(t) => crate::text::str_equal(s.name.lexeme(), t.name.lexeme()),
            _ => false,
        },
        TypeKind::Trait(s) => match &b.inner.kind {
            TypeKind::Trait(t) => crate::text::str_equal(s.name.lexeme(), t.name.lexeme()),
            _ => false,
        },
        TypeKind::Function(f) => match &b.inner.kind {
            TypeKind::Function(g) => {
                if f.parameter_types.len() != g.parameter_types.len() {
                    return false;
                }
                let mut i: usize = 0;
                while i < f.parameter_types.len()
                    invariant
                        a.inner.kind == TypeKind::Function(*f),
                        b.inner.kind == TypeKind::Function(*g),
                        f.parameter_types@.len() == g.parameter_types@.len(),
                        i <= f.parameter_types@.len(),
                        types_equal_upto(f.parameter_types@, g.parameter_types@, i as int),
                    decreases f.parameter_types.len() - i,
                {
                    proof {
                        assert(decreases_to!(*a => a.inner));
                        assert(decreases_to!(a.inner => a.inner.kind));
                        assert(decreases_to!(a.inner.kind => (a.inner.kind)->Function_0));
                        assert(decreases_to!(*f => f.parameter_types));
                        assert(decreases_to!(f.parameter_types => f.parameter_types@));
                        assert(decreases_to!(f.parameter_types@ => f.parameter_types@[i as int]));
                        assert(decreases_to!(*a => f.parameter_types@[i as int]));
                    }
                    if !types_equal(&f.parameter_types[i], &g.parameter_types[i]) {
                        proof {
                            if types_equal_upto(
                                f.parameter_types@,
                                g.parameter_types@,
                                f.parameter_types@.len() as int,
                            ) {
                                lemma_types_equal_upto(
                                    f.parameter_types@,
                                    g.parameter_types@,
                                    f.parameter_types@.len() as int,
                                    i as int,
                                );
                            }
                        }
                        return false;
                    }
                    i = i + 1;
                }
                proof {
                    assert(decreases_to!(*a => a.inner));
                    assert(decreases_to!(a.inner => a.inner.kind));
                    assert(decreases_to!(a.inner.kind => (a.inner.kind)->Function_0));
                    assert(decreases_to!(*f => f.return_type));
                    assert(decreases_to!(*a => f.return_type));
                }
                types_equal(&f.return_type, &g.return_type)
            },
            _ => false,
        },
    }
}

impl PartialEq for Type {
    fn eq(&self, other: &Self) -> (r: bool) {
        types_equal(self, other)
    }
}

impl vstd::std_specs::cmp::PartialEqSpecImpl for Type {
    open spec fn obeys_eq_spec() -> bool {
        true
    }

    open spec fn eq_spec(&self, other: &Self) -> bool {
        type_equal(*self, *other)
    }
}

impl StructField {
    /// A field named by `name_token`, of type `ty`.
    pub fn new(name_token: &Token, ty: Type) -> (f: Self)
        ensures
            f.name@ == name_token.inner.value@,
            f.name_token == *name_token,
            f.ty == ty,
    {
        StructField {
            name: name_token.lexeme().to_owned(),
            name_token: Token { inner: share(&name_token.inner) },
            ty,
        }
    }
}


spec fn kind_of(t: Type) -> TypeKind {
    t.inner.kind
}

proof fn lemma_kind_equal_reflexive(k: TypeKind)
    ensures
        kind_equal(k, k),
    decreases k, 0nat,
{
    if let TypeKind::Function(f) = k {
        lemma_types_equal_upto_reflexive(f.parameter_types@, f.parameter_types@.len() as int);
        lemma_kind_equal_reflexive(kind_of(f.return_type));
    }
}

proof fn lemma_types_equal_upto_reflexive(s: Seq<Type>, n: int)
    ensures
        types_equal_upto(s, s, n),
    decreases s, n,
{
    if 0 < n <= s.len() {
        lemma_types_equal_upto_reflexive(s, n - 1);
        lemma_kind_equal_reflexive(kind_of(s[n - 1]));
    }
}

proof fn lemma_kind_equal_symmetric(a: TypeKind, b: TypeKind)
    requires
        kind_equal(a, b),
    ensures
        kind_equal(b, a),
    decreases a, 0nat,
{
    if let TypeKind::Function(f) = a {
        if let TypeKind::Function(g) = b {
            lemma_types_equal_upto_symmetric(f.parameter_types@, g.parameter_types@, f.parameter_types@.len() as int);
            lemma_kind_equal_symmetric(kind_of(f.return_type), kind_of(g.return_type));
        }
    }
}

proof fn lemma_types_equal_upto_symmetric(s: Seq<Type>, t: Seq<Type>, n: int)
    requires
        s.len() == t.len(),
        types_equal_upto(s, t, n),
    ensures
        types_equal_upto(t, s, n),
    decreases s, n,
{
    if 0 < n <= s.len() {
        lemma_types_equal_upto_symmetric(s, t, n - 1);
        lemma_kind_equal_symmetric(kind_of(s[n - 1]), kind_of(t[n - 1]));
    }
}

/// Every type equals itself.
pub proof fn law_type_equal_reflexive(t: Type)
    ensures
        type_equal(t, t),
{
    lemma_kind_equal_reflexive(kind_of(t));
}

/// Equality of types does not depend on the order of the two types.
pub proof fn law_type_equal_symmetric(a: Type, b: Type)
    requires
        type_equal(a, b),
    ensures
        type_equal(b, a),
{
    lemma_kind_equal_symmetric(kind_of(a), kind_of(b));
}

/// What type equality compares, kind by kind: kinds without parts are equal to
/// themselves only, primitive types are equal when they are the same primitive, struct and
/// trait types when their name tokens have the same text (whatever their fields), and a
/// function type equals only function types.
pub proof fn law_type_equal_by_kind(a: Type, b: Type)
    ensures
        a.spec_kind() is Any ==> (type_equal(a, b) == b.spec_kind() is Any),
        a.spec_kind() is Never ==> (type_equal(a, b) == b.spec_kind() is Never),
        a.spec_kind() is Unknown ==> (type_equal(a, b) == b.spec_kind() is Unknown),
        a.spec_kind() is Unresolved ==> (type_equal(a, b) == b.spec_kind() is Unresolved),
        a.spec_kind() is Type ==> (type_equal(a, b) == b.spec_kind() is Type),
        a.spec_kind() is Namespace ==> (type_equal(a, b) == b.spec_kind() is Namespace),
        a.spec_kind() is Primitive ==> (type_equal(a, b) == (b.spec_kind() is Primitive
            && a.spec_kind()->Primitive_0 == b.spec_kind()->Primitive_0)),
        a.spec_kind() is Struct ==> (type_equal(a, b) == (b.spec_kind() is Struct
            && a.spec_kind()->Struct_0.name.inner.value@ == b.spec_kind()->Struct_0.name.inner.value@)),
        a.spec_kind() is Trait ==> (type_equal(a, b) == (b.spec_kind() is Trait
            && a.spec_kind()->Trait_0.name.inner.value@ == b.spec_kind()->Trait_0.name.inner.value@)),
        a.spec_kind() is Function && type_equal(a, b) ==> b.spec_kind() is Function,
{
}


proof fn lemma_types_equal_upto_all(s: Seq<Type>, t: Seq<Type>, n: int)
    requires
        0 <= n <= s.len(),
        n <= t.len(),
        forall|i: int| 0 <= i < n ==> kind_equal(#[trigger] s[i].inner.kind, t[i].inner.kind),
    ensures
        types_equal_upto(s, t, n),
    decreases n,
{
    if n > 0 {
        lemma_types_equal_upto_all(s, t, n - 1);
    }
}

/// Two function types are equal exactly when they have as many parameters, their
/// parameter types are pairwise equal, and their return types are equal.
pub proof fn law_function_type_equal(a: Type, b: Type)
    requires
        a.spec_kind() is Function,
        b.spec_kind() is Function,
    ensures
        ({
            let f = a.spec_kind()->Function_0;
            let g = b.spec_kind()->Function_0;
            type_equal(a, b) <==> (f.parameter_types@.len() == g.parameter_types@.len()
                && (forall|i: int|
                0 <= i < f.parameter_types@.len() ==> type_equal(
                    #[trigger] f.parameter_types@[i],
                    g.parameter_types@[i],
                )) && type_equal(f.return_type, g.return_type))
        }),
{
    let f = a.spec_kind()->Function_0;
    let g = b.spec_kind()->Function_0;
    let n = f.parameter_types@.len() as int;
    if type_equal(a, b) {
        assert forall|i: int| 0 <= i < n implies type_equal(#[trigger] f.parameter_types@[i], g.parameter_types@[i]) by {
            lemma_types_equal_upto(f.parameter_types@, g.parameter_types@, n, i);
        }
    }
    if f.parameter_types@.len() == g.parameter_types@.len() && (forall|i: int|
        0 <= i < n ==> type_equal(#[trigger] f.parameter_types@[i], g.parameter_types@[i])) {
        lemma_types_equal_upto_all(f.parameter_types@, g.parameter_types@, n);
    }
}

} // verus!
