//! The factory of types: the predefined types, and new types by kind.
use vstd::prelude::*;
use std::rc::Rc;
use crate::compiler::frontend::lex::token::{Token, TokenInner, TokenType};
use crate::compiler::infra::full_name::{joined, FullName};
use crate::compiler::infra::shared::share;
use crate::compiler::infra::source_span::SourceSpan;
use crate::compiler::model::types::{
    field_names_unique,
    FunctionType, PrimitiveType, StructField, StructType, TraitType, Type, TypeKind,
};
use crate::text::{join_with, push_str};

verus! {

/// Makes types, and holds the predefined ones.
pub struct TypeFactory {
    inner: Rc<TypeFactoryInner>,
}

struct TypeFactoryInner {
    bool: Type,
    unit: Type,
    i64: Type,
    f64_type: Type,
    ty: Type,
    str: Type,
    unknown: Type,
    unresolved: Type,
    never: Type,
}

/// The name of a function type: `Fn(`, the parameter types joined by `, `, `) -> `, then
/// the return type.
pub open spec fn function_type_name(parameter_types: Seq<Type>, return_type: Type) -> Seq<char> {
    "Fn("@ + join_with(parameter_types.map_values(|t: Type| t.type_text()), ", "@) + ") -> "@
        + return_type.type_text()
}

/// The kind of the struct type named by a token of text `name`, without fields: the kind of
/// the predefined `Unit` type.
pub open spec fn is_unit_kind(kind: TypeKind) -> bool {
    kind matches TypeKind::Struct(s) && s.name.inner.value@ == "Unit"@ && s.name.inner.token_type
        == TokenType::Identifier
}

fn make_predefined(name: &str, kind: TypeKind) -> (t: Type)
    ensures
        t.spec_name()@ == seq![name@],
        t.spec_kind() == kind,
{
    Type::new(FullName::new(name), kind, SourceSpan::ephemeral())
}

impl TypeFactory {
    /// A factory with the predefined types `bool`, `Unit`, `f64`, `i64`, `str`, `Type`,
    /// `unknown`, `never` and `unresolved`.
    pub fn new() -> (f: Self)
        ensures
            f.spec_bool().spec_name()@ == seq!["bool"@],
            f.spec_bool().spec_kind() == TypeKind::Primitive(PrimitiveType::Bool),
            f.spec_unit().spec_name()@ == seq!["Unit"@],
            is_unit_kind(f.spec_unit().spec_kind()),
            f.spec_f64().spec_name()@ == seq!["f64"@],
            f.spec_f64().spec_kind() == TypeKind::Primitive(PrimitiveType::F64),
            f.spec_i64().spec_name()@ == seq!["i64"@],
            f.spec_i64().spec_kind() == TypeKind::Primitive(PrimitiveType::I64),
            f.spec_str().spec_name()@ == seq!["str"@],
            f.spec_str().spec_kind() == TypeKind::Primitive(PrimitiveType::Str),
            f.spec_ty().spec_name()@ == seq!["Type"@],
            f.spec_ty().spec_kind() is Type,
            f.spec_unknown().spec_name()@ == seq!["unknown"@],
            f.spec_unknown().spec_kind() is Unknown,
            f.spec_never().spec_name()@ == seq!["never"@],
            f.spec_never().spec_kind() is Never,
            f.spec_unresolved().spec_name()@ == seq!["unresolved"@],
            f.spec_unresolved().spec_kind() is Unresolved,
    {
        let unit_token = Token {
            inner: Rc::new(
                TokenInner {
                    token_type: TokenType::Identifier,
                    location: SourceSpan::ephemeral(),
                    value: "Unit".to_owned(),
                },
            ),
        };
        let unit_kind = TypeKind::Struct(StructType { name: unit_token, fields: Vec::new() });
        TypeFactory {
            inner: Rc::new(
                TypeFactoryInner {
                    bool: make_predefined("bool", TypeKind::Primitive(PrimitiveType::Bool)),
                    unit: make_predefined("Unit", unit_kind),
                    f64_type: make_predefined("f64", TypeKind::Primitive(PrimitiveType::F64)),
                    i64: make_predefined("i64", TypeKind::Primitive(PrimitiveType::I64)),
                    str: make_predefined("str", TypeKind::Primitive(PrimitiveType::Str)),
                    ty: make_predefined("Type", TypeKind::Type),
                    unknown: make_predefined("unknown", TypeKind::Unknown),
                    never: make_predefined("never", TypeKind::Never),
                    unresolved: make_predefined("unresolved", TypeKind::Unresolved),
                },
            ),
        }
    }

    /// The predefined `bool` type, in specifications.
    pub closed spec fn spec_bool(&self) -> Type {
        self.inner.bool
    }

    /// The predefined `Unit` type, in specifications.
    pub closed spec fn spec_unit(&self) -> Type {
        self.inner.unit
    }

    /// The predefined `i64` type, in specifications.
    pub closed spec fn spec_i64(&self) -> Type {
        self.inner.i64
    }

    /// The predefined `f64` type, in specifications.
    pub closed spec fn spec_f64(&self) -> Type {
        self.inner.f64_type
    }

    /// The predefined `Type` type, in specifications.
    pub closed spec fn spec_ty(&self) -> Type {
        self.inner.ty
    }

    /// The predefined `str` type, in specifications.
    pub closed spec fn spec_str(&self) -> Type {
        self.inner.str
    }

    /// The predefined `unknown` type, in specifications.
    pub closed spec fn spec_unknown(&self) -> Type {
        self.inner.unknown
    }

    /// The predefined `unresolved` type, in specifications.
    pub closed spec fn spec_unresolved(&self) -> Type {
        self.inner.unresolved
    }

    /// The predefined `never` type, in specifications.
    pub closed spec fn spec_never(&self) -> Type {
        self.inner.never
    }

    /// The predefined `bool` type.
    pub fn bool(&self) -> (t: Type)
        ensures
            t == self.spec_bool(),
    {
        self.inner.bool.share()
    }

    /// The predefined `Unit` type.
    pub fn unit(&self) -> (t: Type)
        ensures
            t == self.spec_unit(),
    {
        self.inner.unit.share()
    }

    /// The predefined `i64` type.
    pub fn i64(&self) -> (t: Type)
        ensures
            t == self.spec_i64(),
    {
        self.inner.i64.share()
    }

    /// The predefined `f64` type.
    pub fn f64_type(&self) -> (t: Type)
        ensures
            t == self.spec_f64(),
    {
        self.inner.f64_type.share()
    }

    /// The predefined `Type` type.
    pub fn ty(&self) -> (t: Type)
        ensures
            t == self.spec_ty(),
    {
        self.inner.ty.share()
    }

    /// The predefined `str` type.
    pub fn str(&self) -> (t: Type)
        ensures
            t == self.spec_str(),
    {
        self.inner.str.share()
    }

    /// The predefined `unknown` type.
    pub fn unknown(&self) -> (t: Type)
        ensures
            t == self.spec_unknown(),
    {
        self.inner.unknown.share()
    }

    /// The predefined `unresolved` type.
    pub fn unresolved(&self) -> (t: Type)
        ensures
            t == self.spec_unresolved(),
    {
        self.inner.unresolved.share()
    }

    /// The predefined `never` type.
    pub fn never(&self) -> (t: Type)
        ensures
            t == self.spec_never(),
    {
        self.inner.never.share()
    }

    /// A type named `name` of `kind`, declared at `declaration_site`.
    pub fn make_type(&self, name: FullName, kind: TypeKind, declaration_site: SourceSpan) -> (t: Type)
        ensures
            t.spec_name() == name,
            t.spec_kind() == kind,
            t.spec_declaration_site() == declaration_site,
    {
        Type::new(name, kind, declaration_site)
    }

    /// The type of functions from `parameter_types` to `return_type`, named after them
    /// (see `function_type_name`).
    pub fn function(
        &self,
        parameter_types: Vec<Type>,
        return_type: Type,
        declaration_site: SourceSpan,
    ) -> (t: Type)
        ensures
            t.spec_name()@ == seq![function_type_name(parameter_types@, return_type)],
            t.spec_kind() matches TypeKind::Function(f) && f.parameter_types@ == parameter_types@
                && f.return_type == return_type,
            t.spec_declaration_site() == declaration_site,
    {
        let mut name = String::new();
        push_str(&mut name, "Fn(");
        let ghost texts = parameter_types@.map_values(|t: Type| t.type_text());
        let mut i: usize = 0;
        while i < parameter_types.len()
            invariant
                i <= parameter_types@.len(),
                texts == parameter_types@.map_values(|t: Type| t.type_text()),
                name@ == "Fn("@ + join_with(texts.take(i as int), ", "@),
            decreases parameter_types.len() - i,
        {
            let ghost before = name@;
            if i > 0 {
                push_str(&mut name, ", ");
            }
            parameter_types[i].push_display(&mut name);
            proof {
                assert(texts.take(i + 1).drop_last() =~= texts.take(i as int));
                if i == 0 {
                    assert(texts.take(0) =~= Seq::<Seq<char>>::empty());
                }
            }
            i = i + 1;
            assert(name@ =~= "Fn("@ + join_with(texts.take(i as int), ", "@));
        }
        push_str(&mut name, ") -> ");
        return_type.push_display(&mut name);
        proof {
            assert(texts.take(parameter_types@.len() as int) =~= texts);
        }
        assert(name@ =~= function_type_name(parameter_types@, return_type));
        self.make_type(
            FullName::new(name.as_str()),
            TypeKind::Function(FunctionType { parameter_types, return_type }),
            declaration_site,
        )
    }

    /// The struct type named by `name` with `fields`, no two of the same name.
    pub fn make_struct(
        &self,
        name: &Token,
        fields: Vec<StructField>,
        declaration_site: SourceSpan,
    ) -> (t: Type)
        requires
            field_names_unique(fields@),
        ensures
            t.spec_name()@ == seq![name.inner.value@],
            t.spec_kind() matches TypeKind::Struct(s) && s.name == *name && s.fields == fields,
            t.spec_declaration_site() == declaration_site,
    {
        self.make_type(
            FullName::new(name.lexeme()),
            TypeKind::Struct(StructType { name: Token { inner: share(&name.inner) }, fields }),
            declaration_site,
        )
    }

    /// The namespace named by `name`.
    pub fn make_namespace(&self, name: &Token, declaration_site: SourceSpan) -> (t: Type)
        ensures
            t.spec_name()@ == seq![name.inner.value@],
            t.spec_kind() is Namespace,
            t.spec_declaration_site() == declaration_site,
    {
        self.make_type(FullName::new(name.lexeme()), TypeKind::Namespace, declaration_site)
    }

    /// The trait type named by `name`.
    pub fn make_trait(&self, name: &Token, declaration_site: SourceSpan) -> (t: Type)
        ensures
            t.spec_name()@ == seq![name.inner.value@],
            t.spec_kind() matches TypeKind::Trait(tr) && tr.name == *name,
            t.spec_declaration_site() == declaration_site,
    {
        self.make_type(
            FullName::new(name.lexeme()),
            TypeKind::Trait(TraitType { name: Token { inner: share(&name.inner) } }),
            declaration_site,
        )
    }

    /// A type named `name` of `kind`, declared nowhere (at an ephemeral span).
    pub fn make_ephemeral(&self, name: &str, kind: TypeKind) -> (t: Type)
        ensures
            t.spec_name()@ == seq![name@],
            t.spec_kind() == kind,
            t.spec_declaration_site().source_file.inner.filename@
                == crate::compiler::infra::source_span::EPHEMERAL_FILE@,
    {
        self.make_type(FullName::new(name), kind, SourceSpan::ephemeral())
    }
}

} // verus!
