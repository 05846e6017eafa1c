use felico::compiler::interpret::core_definitions::{core_definition_table, CoreValue};
use felico::compiler::frontend::ast::expr::{
    AssignExpr, CallExpr, CreateStructExpr, CreateStructInitializer, Expr, IfExpr, LiteralExpr,
};
use felico::compiler::frontend::ast::qualified_name::QualifiedName;
use felico::compiler::frontend::ast::stmt::LetStmt;
use felico::compiler::infra::full_name::FullName;
use felico::compiler::frontend::lex::token::{Token, TokenInner, TokenType};
use felico::compiler::model::types::StructField;
use std::rc::Rc;
use felico::compiler::frontend::ast::node::AstNode;
use felico::compiler::frontend::resolve::resolver::{
    get_definition_distance_and_symbol, LexicalScope, Resolver, Symbol,
};
use felico::compiler::infra::source_file::SourceFile;
use felico::compiler::infra::source_span::SourceSpan;
use felico::compiler::interpret::call::{
    arity_matches, enter_call, leave_call, loop_step, not_a_bool_message, spend_fuel,
    wrong_arity_message, LoopStep, INITIAL_FUEL, INITIAL_STACK, OUT_OF_FUEL_MESSAGE,
    STACK_EXCEEDED_MESSAGE,
};
use felico::compiler::model::type_factory::TypeFactory;
use felico::compiler::model::types::Type;

fn span(start: i32, end: i32) -> SourceSpan {
    SourceSpan {
        source_file: SourceFile::from_string("main.fel", "fun f(a: i64, b: bool) {}"),
        start_byte: start,
        end_byte: end,
    }
}

fn typed(ty: Type, start: i32, end: i32) -> AstNode<Expr> {
    AstNode::new(Expr::Literal(LiteralExpr::Unit), span(start, end), ty)
}

fn symbol(ty: Type, start: i32, defined: bool) -> Symbol {
    Symbol { declaration_site: span(start, start + 1), is_defined: defined, ty }
}

#[test]
fn call_of_a_non_function() {
    let factory = TypeFactory::new();
    let mut resolver = Resolver::new(TypeFactory::new());
    let call = CallExpr { callee: typed(factory.i64(), 0, 3), arguments: vec![] };
    let ty = resolver.check_call(&call, &span(0, 5));
    assert_eq!(ty.to_display_string(), "❬unresolved❭");
    let diagnostics = resolver.diagnostics();
    assert_eq!(diagnostics.len(), 1);
    assert_eq!(
        diagnostics[0].message,
        "Expected a function to call, but instead found type ❬i64❭"
    );
    assert_eq!(diagnostics[0].location.start_byte, 0);
    assert_eq!(diagnostics[0].location.end_byte, 3);
    assert!(diagnostics[0].labels.is_empty());
}

#[test]
fn call_with_wrong_arity_and_argument_type() {
    let factory = TypeFactory::new();
    let fun_ty = factory.function(vec![factory.i64(), factory.bool()], factory.bool(), span(0, 25));
    let mut resolver = Resolver::new(TypeFactory::new());
    let call = CallExpr { callee: typed(fun_ty, 30, 31), arguments: vec![typed(factory.bool(), 32, 36)] };
    let ty = resolver.check_call(&call, &span(30, 37));
    assert_eq!(ty.to_display_string(), "❬bool❭");
    let diagnostics = resolver.diagnostics();
    assert_eq!(diagnostics.len(), 2);
    assert_eq!(diagnostics[0].message, "Wrong number of arguments in call - expected: 2, actual 1");
    assert_eq!(diagnostics[0].location.start_byte, 30);
    assert_eq!(diagnostics[0].location.end_byte, 37);
    assert_eq!(diagnostics[0].labels.len(), 1);
    assert_eq!(diagnostics[0].labels[0].text, "Function declared here");
    assert_eq!(diagnostics[0].labels[0].location.end_byte, 25);
    assert_eq!(
        diagnostics[1].message,
        "Cannot coerce argument of type ❬bool❭ as parameter of type ❬i64❭ in function invocation"
    );
    assert_eq!(diagnostics[1].location.start_byte, 32);
    assert_eq!(diagnostics[1].labels.len(), 1);
}

#[test]
fn call_that_fits() {
    let factory = TypeFactory::new();
    let fun_ty = factory.function(vec![factory.i64()], factory.unit(), SourceSpan::ephemeral());
    let mut resolver = Resolver::new(TypeFactory::new());
    let call = CallExpr { callee: typed(fun_ty, 0, 1), arguments: vec![typed(factory.i64(), 2, 3)] };
    let ty = resolver.check_call(&call, &span(0, 4));
    assert_eq!(ty.to_display_string(), "❬Unit❭");
    assert!(resolver.diagnostics().is_empty());
    let never_fun = factory.function(vec![factory.bool()], factory.unit(), SourceSpan::ephemeral());
    let call = CallExpr { callee: typed(never_fun, 0, 1), arguments: vec![typed(factory.i64(), 2, 3)] };
    resolver.check_call(&call, &span(0, 4));
    assert_eq!(resolver.diagnostics().len(), 1);
    assert!(resolver.diagnostics()[0].labels.is_empty());
}

#[test]
fn scope_declares_each_name_once() {
    let factory = TypeFactory::new();
    let mut scope = LexicalScope::new();
    assert!(scope.get("a").is_none());
    assert!(scope.declare("a", symbol(factory.i64(), 1, true)));
    assert!(!scope.declare("a", symbol(factory.bool(), 5, true)));
    assert_eq!(scope.get("a").unwrap().declaration_site.start_byte, 1);
    assert!(scope.get("b").is_none());
}

#[test]
fn redeclaration_is_diagnosed() {
    let factory = TypeFactory::new();
    let mut resolver = Resolver::new(TypeFactory::new());
    resolver.add_symbol_to_scope("x", symbol(factory.i64(), 2, true));
    assert!(resolver.diagnostics().is_empty());
    resolver.add_symbol_to_scope("x", symbol(factory.bool(), 9, true));
    let diagnostics = resolver.diagnostics();
    assert_eq!(diagnostics.len(), 1);
    assert_eq!(diagnostics[0].message, "The name 'x' already declared");
    assert_eq!(diagnostics[0].location.start_byte, 9);
    assert_eq!(diagnostics[0].labels[0].text, "is already declared here");
    assert_eq!(diagnostics[0].labels[0].location.start_byte, 2);
    let (distance, found) = resolver.lookup("x").unwrap();
    assert_eq!(distance, 0);
    assert_eq!(found.declaration_site.start_byte, 2);
}

#[test]
fn lookup_goes_outwards_and_inner_names_shadow() {
    let factory = TypeFactory::new();
    let mut resolver = Resolver::new(TypeFactory::new());
    resolver.add_symbol_to_scope("x", symbol(factory.i64(), 1, true));
    resolver.add_symbol_to_scope("y", symbol(factory.i64(), 3, true));
    resolver.push_scope();
    resolver.push_scope();
    resolver.add_symbol_to_scope("y", symbol(factory.bool(), 7, true));
    resolver.add_symbol_to_scope("z", symbol(factory.bool(), 9, false));
    let (distance, found) = resolver.lookup("x").unwrap();
    assert_eq!(distance, 2);
    assert_eq!(found.declaration_site.start_byte, 1);
    let (distance, found) = resolver.lookup("y").unwrap();
    assert_eq!(distance, 0);
    assert_eq!(found.declaration_site.start_byte, 7);
    assert!(resolver.lookup("z").is_none());
    assert!(resolver.lookup("w").is_none());
    resolver.pop_scope();
    let (distance, _) = resolver.lookup("x").unwrap();
    assert_eq!(distance, 1);
    assert_eq!(resolver.lookup("y").unwrap().1.declaration_site.start_byte, 3);
}

#[test]
fn undefined_symbol_hides_outer_definition() {
    let factory = TypeFactory::new();
    let mut outer = LexicalScope::new();
    outer.declare("a", symbol(factory.i64(), 1, true));
    let mut inner = LexicalScope::new();
    inner.declare("a", symbol(factory.i64(), 4, false));
    let scopes = vec![outer, inner];
    assert!(get_definition_distance_and_symbol(&scopes, "a").is_none());
}

#[test]
fn call_stack_space() {
    assert_eq!(enter_call(5), (4, true));
    assert_eq!(enter_call(1), (0, false));
    assert_eq!(enter_call(0), (-1, false));
    assert_eq!(leave_call(4), 5);
    assert_eq!(STACK_EXCEEDED_MESSAGE, "Stack size exceeded.");
}

#[test]
fn call_arity() {
    assert!(arity_matches(2, 2));
    assert!(!arity_matches(2, 3));
    assert_eq!(
        wrong_arity_message("foo", 2, 3),
        "Wrong number of arguments in function call 'foo' - Expected: 2, got: 3 instead"
    );
}

fn field_token(name: &str, start: i32) -> Token {
    Token {
        inner: Rc::new(TokenInner {
            token_type: TokenType::Identifier,
            location: span(start, start + name.len() as i32),
            value: name.to_string(),
        }),
    }
}

fn init(name: &str, start: i32, ty: Type) -> CreateStructInitializer {
    CreateStructInitializer { field_name: field_token(name, start), expression: typed(ty, start + 3, start + 4) }
}

#[test]
fn struct_value_checks() {
    let factory = TypeFactory::new();
    let fields = vec![
        StructField::new(&field_token("y", 0), factory.bool()),
        StructField::new(&field_token("x", 0), factory.i64()),
    ];
    let point = factory.make_struct(&field_token("Point", 0), fields, span(0, 10));
    let create = CreateStructExpr {
        type_expression: typed(point, 40, 45),
        field_initializers: vec![
            init("y", 50, factory.bool()),
            init("z", 60, factory.i64()),
            init("y", 70, factory.i64()),
        ],
    };
    let mut resolver = Resolver::new(TypeFactory::new());
    let ty = resolver.check_create_struct(&create, &span(40, 80));
    assert_eq!(ty.to_display_string(), "❬Point❭");
    let d = resolver.diagnostics();
    assert_eq!(d.len(), 4);
    assert_eq!(d[0].message, "Field 'y' (Identifier) is already initialized");
    assert_eq!(d[0].location.start_byte, 70);
    assert_eq!(d[0].labels.len(), 1);
    assert_eq!(d[0].labels[0].text, "Already initialized here");
    assert_eq!(d[0].labels[0].location.start_byte, 50);
    assert_eq!(d[1].message, "Struct ❬Point❭ does not have a field named 'z'");
    assert_eq!(d[1].location.start_byte, 60);
    assert_eq!(d[1].labels[0].text, "Struct declared here");
    assert_eq!(d[1].labels[0].location.end_byte, 10);
    assert_eq!(
        d[2].message,
        "Cannot coerce field initializer value of type ❬i64❭ to field 'y' type ❬bool❭ in construction of struct ❬Point❭"
    );
    assert_eq!(d[2].location.start_byte, 70);
    assert_eq!(
        d[3].message,
        "Struct initializer for struct ❬Point❭ is missing field 'x' of type '❬i64❭'"
    );
    assert_eq!(d[3].location.start_byte, 40);
    assert_eq!(d[3].location.end_byte, 80);
}

#[test]
fn struct_value_missing_fields_in_name_order() {
    let factory = TypeFactory::new();
    let fields = vec![
        StructField::new(&field_token("b", 0), factory.bool()),
        StructField::new(&field_token("c", 0), factory.i64()),
        StructField::new(&field_token("a", 0), factory.i64()),
    ];
    let abc = factory.make_struct(&field_token("Abc", 0), fields, SourceSpan::ephemeral());
    let create = CreateStructExpr { type_expression: typed(abc, 0, 3), field_initializers: vec![] };
    let mut resolver = Resolver::new(TypeFactory::new());
    resolver.check_create_struct(&create, &span(0, 6));
    let d = resolver.diagnostics();
    assert_eq!(d.len(), 3);
    assert!(d[0].message.contains("missing field 'a'"));
    assert!(d[1].message.contains("missing field 'b'"));
    assert!(d[2].message.contains("missing field 'c'"));
    assert!(d[0].labels.is_empty());
}

#[test]
fn struct_value_of_a_non_struct() {
    let factory = TypeFactory::new();
    let create = CreateStructExpr { type_expression: typed(factory.i64(), 0, 3), field_initializers: vec![] };
    let mut resolver = Resolver::new(TypeFactory::new());
    let ty = resolver.check_create_struct(&create, &span(0, 6));
    assert_eq!(ty.to_display_string(), "❬unresolved❭");
    let d = resolver.diagnostics();
    assert_eq!(d.len(), 1);
    assert_eq!(d[0].message, "Expected a struct to create, but instead found type ❬i64❭");
    assert!(d[0].labels.is_empty());
}

#[test]
fn literal_types() {
    let resolver = Resolver::new(TypeFactory::new());
    assert_eq!(resolver.check_literal(&LiteralExpr::Str("a".to_string())).to_display_string(), "❬str❭");
    assert_eq!(resolver.check_literal(&LiteralExpr::F64("1.0".to_string())).to_display_string(), "❬f64❭");
    assert_eq!(resolver.check_literal(&LiteralExpr::I64(1)).to_display_string(), "❬i64❭");
    assert_eq!(resolver.check_literal(&LiteralExpr::Bool(true)).to_display_string(), "❬bool❭");
    assert_eq!(resolver.check_literal(&LiteralExpr::Unit).to_display_string(), "❬Unit❭");
}

#[test]
fn binary_types() {
    let factory = TypeFactory::new();
    let resolver = Resolver::new(TypeFactory::new());
    let less = Token {
        inner: Rc::new(TokenInner { token_type: TokenType::Less, location: SourceSpan::ephemeral(), value: "<".to_string() }),
    };
    let plus = Token {
        inner: Rc::new(TokenInner { token_type: TokenType::Plus, location: SourceSpan::ephemeral(), value: "+".to_string() }),
    };
    let i = factory.i64();
    let b = factory.bool();
    let u = factory.unknown();
    assert_eq!(resolver.check_binary(&less, &i, &i, &u).to_display_string(), "❬bool❭");
    assert_eq!(resolver.check_binary(&plus, &i, &i, &u).to_display_string(), "❬i64❭");
    assert_eq!(resolver.check_binary(&plus, &i, &b, &u).to_display_string(), "❬unknown❭");
}

#[test]
fn if_checks() {
    let factory = TypeFactory::new();
    let mut resolver = Resolver::new(TypeFactory::new());
    let good = IfExpr {
        condition: typed(factory.bool(), 3, 7),
        then_expr: typed(factory.i64(), 8, 9),
        else_expr: Some(typed(factory.i64(), 10, 11)),
    };
    assert_eq!(resolver.check_if(&good, &span(0, 12)).to_display_string(), "❬i64❭");
    assert!(resolver.diagnostics().is_empty());
    let bad = IfExpr { condition: typed(factory.i64(), 3, 4), then_expr: typed(factory.bool(), 5, 6), else_expr: None };
    assert_eq!(resolver.check_if(&bad, &span(0, 7)).to_display_string(), "❬bool❭");
    let d = resolver.diagnostics();
    assert_eq!(d.len(), 2);
    assert_eq!(
        d[0].message,
        "Condition in if statement must evaluate to a boolean, but was of type ❬i64❭ instead"
    );
    assert_eq!(d[0].location.start_byte, 3);
    assert_eq!(
        d[1].message,
        "Then and else branch of if statement must evaluate to the same type, but then evaluates to ❬bool❭, while else evaluates to ❬Unit❭"
    );
    assert_eq!(d[1].location.end_byte, 7);
}

fn destination(name: &str) -> AstNode<QualifiedName> {
    AstNode::new(
        QualifiedName { parts: vec![field_token(name, 0)], full_name: FullName::new(name) },
        span(0, 1),
        TypeFactory::new().unknown(),
    )
}

#[test]
fn assignment_checks() {
    let factory = TypeFactory::new();
    let mut resolver = Resolver::new(TypeFactory::new());
    resolver.add_symbol_to_scope("a", symbol(factory.i64(), 4, true));
    resolver.push_scope();
    let ok = AssignExpr { destination: destination("a"), value: typed(factory.i64(), 2, 3), distance: -1 };
    let (distance, ty) = resolver.check_assign(&ok, &span(0, 3));
    assert_eq!(distance, Some(1));
    assert_eq!(ty.to_display_string(), "❬i64❭");
    assert!(resolver.diagnostics().is_empty());
    let wrong = AssignExpr { destination: destination("a"), value: typed(factory.bool(), 2, 6), distance: -1 };
    let (distance, ty) = resolver.check_assign(&wrong, &span(0, 6));
    assert_eq!(distance, Some(1));
    assert_eq!(ty.to_display_string(), "❬unresolved❭");
    let d = resolver.diagnostics();
    assert_eq!(d[0].message, "Expression value of type ❬bool❭ cannot be assigned to variable 'a' of type ❬i64❭");
    assert_eq!(d[0].labels[0].text, "is declared as ❬i64❭ here");
    assert_eq!(d[0].labels[0].location.start_byte, 4);
    let missing = AssignExpr { destination: destination("b"), value: typed(factory.bool(), 2, 6), distance: -1 };
    let (distance, ty) = resolver.check_assign(&missing, &span(0, 6));
    assert_eq!(distance, None);
    assert_eq!(ty.to_display_string(), "❬unresolved❭");
    assert_eq!(resolver.diagnostics()[1].message, "Variable 'b' is not defined here");
}

#[test]
fn let_checks() {
    let factory = TypeFactory::new();
    let mut resolver = Resolver::new(TypeFactory::new());
    let name = field_token("v", 4);
    resolver.add_symbol_to_scope("v", Symbol::declare(name.location(), &factory.unknown()));
    assert!(resolver.lookup("v").is_none());
    let stmt = LetStmt { name: name.clone(), expression: typed(factory.bool(), 8, 12), type_expression: None };
    let ty = resolver.check_let(&stmt, None, &span(0, 13));
    assert_eq!(ty.to_display_string(), "❬bool❭");
    let (distance, symbol) = resolver.lookup("v").unwrap();
    assert_eq!(distance, 0);
    assert!(symbol.is_defined);
    assert_eq!(symbol.ty.to_display_string(), "❬bool❭");
    assert_eq!(symbol.declaration_site.start_byte, 4);
    assert!(resolver.diagnostics().is_empty());

    let w = field_token("w", 20);
    resolver.add_symbol_to_scope("w", Symbol::declare(w.location(), &factory.unknown()));
    let stmt = LetStmt { name: w, expression: typed(factory.bool(), 28, 32), type_expression: None };
    let ty = resolver.check_let(&stmt, Some(&factory.i64()), &span(16, 33));
    assert_eq!(ty.to_display_string(), "❬unresolved❭");
    assert_eq!(
        resolver.diagnostics()[0].message,
        "Expression value of type ❬bool❭ cannot be assigned to variable 'w' declared to be type ❬i64❭"
    );
    assert_eq!(resolver.lookup("w").unwrap().1.ty.to_display_string(), "❬i64❭");
    let defined = Symbol::define(&span(1, 2), &factory.i64());
    assert!(defined.is_defined);
}

#[test]
fn return_checks() {
    let factory = TypeFactory::new();
    let mut resolver = Resolver::new(TypeFactory::new());
    let value = typed(factory.bool(), 30, 34);
    match resolver.check_return(&value) {
        Err(message) => assert_eq!(message, "Cannot return in a non function context"),
        Ok(_) => panic!("a return outside a function must fail"),
    }
    resolver.push_function_scope(factory.i64(), span(10, 13));
    resolver.push_scope();
    match resolver.check_return(&typed(factory.i64(), 20, 21)) {
        Ok(ty) => assert_eq!(ty.to_display_string(), "❬never❭"),
        Err(_) => panic!("a return inside a function must succeed"),
    }
    assert!(resolver.diagnostics().is_empty());
    assert!(resolver.check_return(&value).is_ok());
    let d = resolver.diagnostics();
    assert_eq!(d.len(), 1);
    assert_eq!(d[0].message, "Cannot return value of type ❬bool❭ in function returning ❬i64❭");
    assert_eq!(d[0].location.start_byte, 30);
    assert_eq!(d[0].labels[0].text, "declared with return type ❬i64❭ here");
    assert_eq!(d[0].labels[0].location.start_byte, 10);
}

#[test]
fn core_definition_table_entries() {
    let factory = TypeFactory::new();
    let table = core_definition_table(&factory);
    let names: Vec<&str> = table.iter().map(|d| d.name.as_str()).collect();
    assert_eq!(names, vec!["bool", "i64", "f64", "str", "unit", "sqrt", "debug_print", "panic", "abs"]);
    match &table[1].value {
        CoreValue::Type(ty) => assert_eq!(ty.to_display_string(), "❬i64❭"),
        _ => panic!("i64 is a type"),
    }
    assert_eq!(table[1].ty.to_display_string(), factory.ty().to_display_string());
    match &table[7].value {
        CoreValue::NativeFunction { name, arity } => {
            assert_eq!(name, "panic");
            assert_eq!(*arity, 1);
        }
        _ => panic!("panic is a native function"),
    }
    assert_eq!(table[7].ty.to_display_string(), "❬Fn(❬str❭) -> ❬never❭❭");
    assert_eq!(table[6].ty.to_display_string(), "❬Fn(❬any❭) -> ❬Unit❭❭");
}

#[test]
fn fuel_and_loop_steps() {
    assert_eq!(INITIAL_FUEL, 1000);
    assert_eq!(INITIAL_STACK, 20);
    assert_eq!(spend_fuel(2), (1, true));
    assert_eq!(spend_fuel(1), (0, false));
    assert_eq!(OUT_OF_FUEL_MESSAGE, "Out of fuel! Execution took to many loops/function calls.");
    assert!(matches!(loop_step(Some(true)), LoopStep::Continue));
    assert!(matches!(loop_step(Some(false)), LoopStep::Stop));
    assert!(matches!(loop_step(None), LoopStep::NotABool));
    assert_eq!(
        not_a_bool_message("3"),
        "Expected true or false in loop condition, but found '3' instead"
    );
}
