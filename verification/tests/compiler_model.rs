use felico::compiler::backend::c::c_compiler::{
    compiler_directory_name, strip_root_component, zig_download_url, CCompiler,
};
use felico::compiler::frontend::ast::node::AstNode;
use felico::compiler::frontend::ast::print_ast::AstPrinter;
use felico::compiler::frontend::ast::qualified_name::QualifiedName;
use felico::compiler::frontend::lex::token::{Token, TokenInner, TokenType};
use felico::compiler::frontend::resolve::module_manifest::{ModuleEntry, ModuleManifest};
use felico::compiler::frontend::resolve::type_checker::TypeChecker;
use felico::compiler::infra::full_name::FullName;
use felico::compiler::infra::location::Location;
use felico::compiler::infra::source_file::SourceFile;
use felico::compiler::infra::source_span::SourceSpan;
use felico::compiler::interpret::value::Panic;
use felico::compiler::model::type_factory::TypeFactory;
use felico::compiler::model::types::{PrimitiveType, TypeKind};
use std::rc::Rc;

fn span(code: &str, start: i32, end: i32) -> SourceSpan {
    SourceSpan {
        source_file: SourceFile::from_string("test.fel", code),
        start_byte: start,
        end_byte: end,
    }
}

fn token(token_type: TokenType, value: &str) -> Token {
    Token {
        inner: Rc::new(TokenInner {
            token_type,
            location: SourceSpan::ephemeral(),
            value: value.to_string(),
        }),
    }
}

#[test]
fn span_line_and_column() {
    let code = "let a = 1;\nlet b = 2;\n  foo";
    let s = span(code, 24, 27);
    assert_eq!(s.get_line_number(), 3);
    assert_eq!(s.get_column_number(), 3);
    assert_eq!(s.get_source_code(), "foo");
    let first = span(code, 0, 3);
    assert_eq!(first.get_line_number(), 1);
    assert_eq!(first.get_column_number(), 1);
    assert_eq!(first.get_source_code(), "let");
}

#[test]
fn span_column_counts_bytes() {
    let s = span("é=x", 3, 4);
    assert_eq!(s.get_column_number(), 4);
    assert_eq!(s.get_source_code(), "x");
}

#[test]
fn ephemeral_spans_and_locations() {
    assert!(SourceSpan::ephemeral().is_ephemeral());
    assert!(!span("x", 0, 1).is_ephemeral());
    assert!(Location::ephemeral().is_ephemeral());
    let location = Location {
        source_file: SourceFile::from_string("main.fel", ""),
        start_byte: 0,
        end_byte: 0,
    };
    assert!(!location.is_ephemeral());
    assert_eq!(SourceSpan::ephemeral().source_file.filename(), "<ephemeral file>");
}

#[test]
fn token_accessors_and_display() {
    let t = token(TokenType::LessEqual, "<=");
    assert!(t.is_comparison_operator());
    assert_eq!(t.lexeme(), "<=");
    assert_eq!(t.token_type(), TokenType::LessEqual);
    assert_eq!(t.to_display_string(), "'<=' (LessEqual)");
    assert!(!token(TokenType::Plus, "+").is_comparison_operator());
    assert!(!token(TokenType::EqualEqual, "==").is_comparison_operator());
    assert!(token(TokenType::Equal, "=").is_comparison_operator());
    assert_eq!(token(TokenType::EOF, "").to_display_string(), "End of file");
}

#[test]
fn predefined_types() {
    let factory = TypeFactory::new();
    assert!(factory.bool().is_bool());
    assert!(!factory.i64().is_bool());
    assert!(factory.unknown().is_unknown());
    assert_eq!(factory.f64_type().to_display_string(), "❬f64❭");
    assert_eq!(factory.unit().to_display_string(), "❬Unit❭");
    assert!(matches!(factory.str().kind(), TypeKind::Primitive(PrimitiveType::Str)));
    assert!(matches!(factory.ty().kind(), TypeKind::Type));
    assert!(matches!(factory.never().kind(), TypeKind::Never));
    assert!(matches!(factory.unresolved().kind(), TypeKind::Unresolved));
}

#[test]
fn function_type_name() {
    let factory = TypeFactory::new();
    let f = factory.function(
        vec![factory.i64(), factory.bool()],
        factory.str(),
        SourceSpan::ephemeral(),
    );
    assert_eq!(f.to_display_string(), "❬Fn(❬i64❭, ❬bool❭) -> ❬str❭❭");
    let g = factory.function(vec![], factory.unit(), SourceSpan::ephemeral());
    assert_eq!(g.to_display_string(), "❬Fn() -> ❬Unit❭❭");
}

#[test]
fn type_equality_by_kind() {
    let factory = TypeFactory::new();
    assert!(factory.i64() == factory.i64());
    assert!(factory.i64() != factory.bool());
    let f1 = factory.function(vec![factory.i64()], factory.str(), SourceSpan::ephemeral());
    let f2 = factory.function(vec![factory.i64()], factory.str(), span("x", 0, 1));
    let f3 = factory.function(vec![factory.bool()], factory.str(), SourceSpan::ephemeral());
    let f4 = factory.function(vec![], factory.str(), SourceSpan::ephemeral());
    assert!(f1 == f2);
    assert!(f1 != f3);
    assert!(f1 != f4);
    let s1 = factory.make_struct(&token(TokenType::Identifier, "Point"), Vec::new(), SourceSpan::ephemeral());
    let s2 = factory.make_struct(&token(TokenType::Identifier, "Point"), Vec::new(), span("x", 0, 1));
    let s3 = factory.make_struct(&token(TokenType::Identifier, "Line"), Vec::new(), SourceSpan::ephemeral());
    assert!(s1 == s2);
    assert!(s1 != s3);
    let t1 = factory.make_trait(&token(TokenType::Identifier, "Show"), SourceSpan::ephemeral());
    assert!(t1 != s1);
    let named = factory.make_ephemeral("other_name", TypeKind::Primitive(PrimitiveType::I64));
    assert!(named == factory.i64());
    assert!(factory.make_namespace(&token(TokenType::Identifier, "std"), SourceSpan::ephemeral()).to_display_string() == "❬std❭");
}

#[test]
fn assignability() {
    let factory = TypeFactory::new();
    let checker = TypeChecker::new();
    assert!(checker.is_assignable_to(&factory.i64(), &factory.i64()));
    assert!(!checker.is_assignable_to(&factory.i64(), &factory.bool()));
    assert!(checker.is_assignable_to(&factory.never(), &factory.bool()));
    assert!(checker.is_assignable_to(&factory.str(), &factory.unresolved()));
    assert!(checker.is_assignable_to(&factory.unresolved(), &factory.str()));
    let any = factory.make_ephemeral("Any", TypeKind::Any);
    assert!(checker.is_assignable_to(&factory.str(), &any));
    assert!(!checker.is_assignable_to(&any, &factory.str()));
    assert!(!checker.is_assignable_to(&factory.bool(), &factory.never()));
}

#[test]
fn module_manifest_sorted_by_key() {
    let entry = |name: &str, signature: &str| {
        (
            name.to_string(),
            ModuleEntry { name: name.to_string(), type_signature: signature.to_string() },
        )
    };
    let manifest = ModuleManifest {
        name: FullName::new("main"),
        module_entries: vec![
            entry("print", "Fn(❬str❭) -> ❬Unit❭"),
            entry("add", "Fn(❬i64❭, ❬i64❭) -> ❬i64❭"),
            entry("Point", "❬Type❭"),
        ],
    };
    assert_eq!(
        manifest.as_pretty_string(),
        "Module\n  Point: ❬Type❭\n  add: Fn(❬i64❭, ❬i64❭) -> ❬i64❭\n  print: Fn(❬str❭) -> ❬Unit❭\n"
    );
    let empty = ModuleManifest { name: FullName::new("empty"), module_entries: vec![] };
    assert_eq!(empty.as_pretty_string(), "Module\n");
}

#[test]
fn panic_display() {
    let panic = Panic {
        message: "boom".to_string(),
        stack: vec!["main".to_string(), "helper".to_string()],
    };
    assert_eq!(panic.to_display_string(), "boom\n    helper\n    main");
    let bare = Panic { message: "x".to_string(), stack: vec![] };
    assert_eq!(bare.to_display_string(), "x");
}

#[test]
fn printer_settings() {
    let printer = AstPrinter::new().with_types(true).with_locations(false);
    let _ = printer;
    let _ = AstPrinter::default();
}

#[test]
fn qualified_name_display() {
    let factory = TypeFactory::new();
    let node = AstNode::new(
        QualifiedName {
            parts: vec![token(TokenType::Identifier, "std"), token(TokenType::Identifier, "print")],
            full_name: FullName::new("print"),
        },
        SourceSpan::ephemeral(),
        factory.unknown(),
    );
    assert_eq!(node.to_display_string(), "std::print");
}

#[test]
fn c_compiler_paths_and_arguments() {
    assert_eq!(
        zig_download_url(),
        "https://ziglang.org/builds/zig-windows-x86_64-0.14.0-dev.1951+857383689.zip"
    );
    assert_eq!(compiler_directory_name(), "zig-0.14.0-dev.1951+857383689");
    let compiler = CCompiler::from_zig_binary("/opt/zig/zig.exe".to_string());
    assert_eq!(compiler.zig_binary(), "/opt/zig/zig.exe");
    assert_eq!(
        compiler.compile_arguments("hello.c", "hello.exe"),
        vec!["cc", "-o", "hello.exe", "hello.c", "-target", "x86_64-windows-gnu"]
    );
    let parts = vec!["zig-1".to_string(), "lib".to_string(), "zig.h".to_string()];
    assert_eq!(strip_root_component(&parts), vec!["lib".to_string(), "zig.h".to_string()]);
    assert!(strip_root_component(&vec![]).is_empty());
}

use felico::compiler::backend::c::c_code_generator::{
    c_binary_operator, c_unary_operator, fullname_to_c, get_c_type,
};
use felico::compiler::frontend::parse::parser::module_name_from_path;
use felico::compiler::infra::full_name::Arena;

#[test]
fn c_names_of_full_names() {
    let arena = Arena::new();
    let name = arena.make_child_name(arena.make_full_name("hello"), "main");
    assert_eq!(fullname_to_c(&name).unwrap(), "hello__main");
    assert_eq!(fullname_to_c(&arena.make_full_name("x")).unwrap(), "x");
    assert_eq!(
        fullname_to_c(&FullName::unresolved()).err().unwrap().message,
        "Fullname is unresolved"
    );
}

#[test]
fn c_types() {
    let factory = TypeFactory::new();
    assert_eq!(get_c_type(&factory.bool()).unwrap(), "_Bool");
    assert_eq!(get_c_type(&factory.f64_type()).unwrap(), "double");
    assert_eq!(get_c_type(&factory.i64()).unwrap(), "int64_t");
    assert_eq!(get_c_type(&factory.str()).unwrap(), "char*");
    assert_eq!(
        get_c_type(&factory.unit()).err().unwrap().message,
        "Implement get_c_type for type ❬Unit❭"
    );
}

#[test]
fn c_operators() {
    assert_eq!(c_binary_operator(TokenType::Plus), Some("+"));
    assert_eq!(c_binary_operator(TokenType::Or), Some("||"));
    assert_eq!(c_binary_operator(TokenType::LessEqual), Some("<="));
    assert_eq!(c_binary_operator(TokenType::BangEqual), None);
    assert_eq!(c_unary_operator(TokenType::Minus), Some("-"));
    assert_eq!(c_unary_operator(TokenType::Bang), None);
}

#[test]
fn module_names() {
    assert_eq!(module_name_from_path("hello.c"), "hello");
    assert_eq!(module_name_from_path("src/dir/main.test.fel"), "main");
    assert_eq!(module_name_from_path("noext"), "noext");
    assert_eq!(module_name_from_path("a.b/c"), "c");
    assert_eq!(module_name_from_path(""), "");
}

#[test]
fn span_debug_string() {
    let s = span("a\nbc d", 5, 6);
    assert_eq!(s.to_debug_string(), "[test.fel:2:4]");
}
