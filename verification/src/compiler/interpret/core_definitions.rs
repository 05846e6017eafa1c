//! The names that every program can use: the primitive types and the native functions,
//! with their types and arities. What the native functions compute is left to the
//! interpreter's operations on values.
use vstd::prelude::*;
use crate::compiler::infra::source_span::{EPHEMERAL_FILE, SourceSpan};
use crate::compiler::model::type_factory::TypeFactory;
use crate::compiler::model::types::{Type, TypeKind};
use crate::text::owned;

verus! {

/// What a core name stands for: a type, or the native function `name` of `arity`
/// arguments.
pub enum CoreValue {
    Type(Type),
    NativeFunction { name: String, arity: usize },
}

/// A core name, what it stands for, and the type of that value.
pub struct CoreDefinition {
    pub name: String,
    pub value: CoreValue,
    pub ty: Type,
}

/// `d` defines `name` as the type `ty`; a type is a value of the type `Type`.
pub open spec fn defines_type(d: CoreDefinition, f: TypeFactory, name: Seq<char>, ty: Type) -> bool {
    &&& d.name@ == name
    &&& d.value == CoreValue::Type(ty)
    &&& d.ty == f.spec_ty()
}

/// `d` defines `name` as a native function of one argument, whose type is a function
/// type declared nowhere in the source, taking a parameter of type `param` and returning
/// `ret`.
pub open spec fn defines_native(d: CoreDefinition, name: Seq<char>, param: Type, ret: Type) -> bool {
    &&& d.name@ == name
    &&& d.value matches CoreValue::NativeFunction { name: n, arity } && n@ == name && arity == 1
    &&& d.ty.spec_kind() matches TypeKind::Function(ft) && ft.parameter_types@ == seq![param]
        && ft.return_type == ret
    &&& d.ty.spec_declaration_site().source_file.inner.filename@ == EPHEMERAL_FILE@
}

/// `t` is the type `any` of kind `Any`, declared nowhere in the source.
pub open spec fn is_any_type(t: Type) -> bool {
    &&& t.spec_name()@ == seq!["any"@]
    &&& t.spec_kind() is Any
    &&& t.spec_declaration_site().source_file.inner.filename@ == EPHEMERAL_FILE@
}

fn type_definition(f: &TypeFactory, name: &str, ty: Type) -> (d: CoreDefinition)
    ensures
        defines_type(d, *f, name@, ty),
{
    CoreDefinition { name: owned(name), value: CoreValue::Type(ty), ty: f.ty() }
}

fn native_definition(f: &TypeFactory, name: &str, param: Type, ret: Type) -> (d: CoreDefinition)
    ensures
        defines_native(d, name@, param, ret),
{
    let mut params = Vec::new();
    params.push(param);
    let ty = f.function(params, ret, SourceSpan::ephemeral());
    assert(params@ =~= seq![param]);
    CoreDefinition { name: owned(name), value: CoreValue::NativeFunction { name: owned(name), arity: 1 }, ty }
}

/// The core definitions, in order: the types `bool`, `i64`, `f64`, `str` and `unit`, then
/// the native functions `sqrt` (`f64` to `f64`), `debug_print` (`any` to `unit`),
/// `panic` (`str` to `never`) and `abs` (`f64` to `f64`).
pub fn core_definition_table(f: &TypeFactory) -> (v: Vec<CoreDefinition>)
    ensures
        v@.len() == 9,
        defines_type(v@[0], *f, "bool"@, f.spec_bool()),
        defines_type(v@[1], *f, "i64"@, f.spec_i64()),
        defines_type(v@[2], *f, "f64"@, f.spec_f64()),
        defines_type(v@[3], *f, "str"@, f.spec_str()),
        defines_type(v@[4], *f, "unit"@, f.spec_unit()),
        defines_native(v@[5], "sqrt"@, f.spec_f64(), f.spec_f64()),
        v@[6].ty.spec_kind() matches TypeKind::Function(ft) && is_any_type(ft.parameter_types@[0]),
        defines_native(
            v@[6],
            "debug_print"@,
            v@[6].ty.spec_kind()->Function_0.parameter_types@[0],
            f.spec_unit(),
        ),
        defines_native(v@[7], "panic"@, f.spec_str(), f.spec_never()),
        defines_native(v@[8], "abs"@, f.spec_f64(), f.spec_f64()),
{
    let mut v = Vec::new();
    v.push(type_definition(f, "bool", f.bool()));
    v.push(type_definition(f, "i64", f.i64()));
    v.push(type_definition(f, "f64", f.f64_type()));
    v.push(type_definition(f, "str", f.str()));
    v.push(type_definition(f, "unit", f.unit()));
    v.push(native_definition(f, "sqrt", f.f64_type(), f.f64_type()));
    let any = f.make_ephemeral("any", TypeKind::Any);
    v.push(native_definition(f, "debug_print", any, f.unit()));
    v.push(native_definition(f, "panic", f.str(), f.never()));
    v.push(native_definition(f, "abs", f.f64_type(), f.f64_type()));
    v
}

} // verus!
