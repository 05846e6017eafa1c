use felico::compiler::frontend::ast::expr::{
    AssignExpr, BinaryExpr, BlockExpr, CallExpr, CreateStructExpr, CreateStructInitializer,
    Expr, GetExpr, IfExpr, LiteralExpr, ReturnExpr, SetExpr, UnaryExpr, VarUse,
};
use felico::compiler::frontend::ast::module::Module;
use felico::compiler::frontend::ast::node::AstNode;
use felico::compiler::frontend::ast::print_ast::{ast_to_string, AstPrinter};
use felico::compiler::frontend::ast::qualified_name::QualifiedName;
use felico::compiler::frontend::ast::stmt::{
    ExprStmt, FunParameter, FunStmt, ImplStmt, LetStmt, Stmt, StructStmt, StructStmtField,
    TraitStmt, WhileStmt,
};
use felico::compiler::frontend::lex::token::{Token, TokenInner, TokenType};
use felico::compiler::infra::full_name::FullName;
use felico::compiler::infra::source_file::SourceFile;
use felico::compiler::infra::source_span::SourceSpan;
use felico::compiler::model::type_factory::TypeFactory;
use std::rc::Rc;

fn span(start: i32, end: i32) -> SourceSpan {
    SourceSpan {
        source_file: SourceFile::from_string("test.fel", ""),
        start_byte: start,
        end_byte: end,
    }
}

fn token(token_type: TokenType, value: &str) -> Token {
    Token {
        inner: Rc::new(TokenInner {
            token_type,
            location: SourceSpan::ephemeral(),
            value: value.to_string(),
        }),
    }
}

fn ident(value: &str) -> Token {
    token(TokenType::Identifier, value)
}

fn node<T: felico::compiler::frontend::ast::AstData>(data: T, start: i32, end: i32) -> AstNode<T> {
    AstNode::new(data, span(start, end), TypeFactory::new().unknown())
}

fn lit(l: LiteralExpr, start: i32, end: i32) -> AstNode<Expr> {
    node(Expr::Literal(l), start, end)
}

fn f64_lit(text: &str, start: i32, end: i32) -> AstNode<Expr> {
    lit(LiteralExpr::F64(text.to_string()), start, end)
}

fn name(text: &str, start: i32, end: i32) -> AstNode<QualifiedName> {
    node(
        QualifiedName { parts: vec![ident(text)], full_name: FullName::new(text) },
        start,
        end,
    )
}

fn read(text: &str, start: i32, end: i32) -> AstNode<Expr> {
    node(Expr::Variable(VarUse { name: name(text, start, end), distance: 0 }), start, end)
}

fn unary(op: &str, right: AstNode<Expr>, start: i32, end: i32) -> AstNode<Expr> {
    node(Expr::Unary(UnaryExpr { operator: token(TokenType::Minus, op), right }), start, end)
}

fn binary(op: &str, left: AstNode<Expr>, right: AstNode<Expr>, start: i32, end: i32) -> AstNode<Expr> {
    node(
        Expr::Binary(BinaryExpr { operator: token(TokenType::EqualEqual, op), left, right }),
        start,
        end,
    )
}

fn stmt(s: Stmt) -> AstNode<Stmt> {
    node(s, 0, 0)
}

#[test]
fn print_bool_literal() {
    let e = lit(LiteralExpr::Bool(true), 0, 4);
    assert_eq!(AstPrinter::new().print_expr(&e), "Bool(true)     [0+4]\n");
    let e = lit(LiteralExpr::Bool(false), 0, 5);
    assert_eq!(AstPrinter::new().print_expr(&e), "Bool(false)     [0+5]\n");
}

#[test]
fn print_string_literals_as_debug_shows_them() {
    let e = lit(LiteralExpr::Str("".to_string()), 0, 2);
    assert_eq!(AstPrinter::new().print_expr(&e), "Str(\"\")     [0+2]\n");
    let e = lit(LiteralExpr::Str("\n".to_string()), 0, 3);
    assert_eq!(AstPrinter::new().print_expr(&e), "Str(\"\\n\")     [0+3]\n");
    let e = lit(LiteralExpr::Str("😶‍🌫️".to_string()), 0, 16);
    assert_eq!(
        AstPrinter::new().print_expr(&e),
        "Str(\"😶\\u{200d}🌫\\u{fe0f}\")     [0+16]\n"
    );
}

#[test]
fn print_variable_and_numbers() {
    assert_eq!(AstPrinter::new().print_expr(&read("foo", 0, 3)), "Read 'foo'     [0+3]\n");
    assert_eq!(AstPrinter::new().print_expr(&f64_lit("0.0", 0, 1)), "F64(0.0)     [0+1]\n");
    let e = lit(LiteralExpr::I64(-42), 0, 3);
    assert_eq!(AstPrinter::new().print_expr(&e), "I64(-42)     [0+3]\n");
    let e = lit(LiteralExpr::Unit, 5, 5);
    assert_eq!(AstPrinter::new().print_expr(&e), "Unit     [5+0]\n");
}

#[test]
fn print_negation() {
    let e = unary("-", f64_lit("1.0", 1, 4), 0, 4);
    assert_eq!(AstPrinter::new().print_expr(&e), "-     [0+4]\n└── F64(1.0)     [1+3]\n");
}

#[test]
fn print_nested_operators() {
    let left = unary("-", f64_lit("1.0", 1, 2), 0, 5);
    let right = unary("-", f64_lit("10.0", 8, 10), 6, 10);
    let e = binary("==", left, right, 0, 10);
    let expected = "==     [0+10]\n├── -     [0+5]\n│   └── F64(1.0)     [1+1]\n└── -     [6+4]\n    └── F64(10.0)     [8+2]\n";
    assert_eq!(AstPrinter::new().print_expr(&e), expected);
}

#[test]
fn print_call_with_arguments() {
    let e = node(
        Expr::Call(CallExpr {
            callee: read("foo", 0, 3),
            arguments: vec![read("bar", 4, 7), read("baz", 8, 11)],
        }),
        0,
        12,
    );
    assert_eq!(
        AstPrinter::new().print_expr(&e),
        "Call     [0+12]\n├── Read 'foo'     [0+3]\n├── Read 'bar'     [4+3]\n└── Read 'baz'     [8+3]\n"
    );
}

#[test]
fn print_assignments() {
    let inner = node(
        Expr::Assign(AssignExpr { destination: name("b", 2, 3), value: f64_lit("3.0", 4, 5), distance: 0 }),
        2,
        5,
    );
    let e = node(
        Expr::Assign(AssignExpr { destination: name("a", 0, 1), value: inner, distance: 0 }),
        0,
        5,
    );
    assert_eq!(
        AstPrinter::new().print_expr(&e),
        "a =      [0+5]\n└── b =      [2+3]\n    └── F64(3.0)     [4+1]\n"
    );
}

#[test]
fn print_types_without_locations() {
    let factory = TypeFactory::new();
    let e = AstNode::new(Expr::Literal(LiteralExpr::I64(-5)), span(0, 2), factory.i64());
    let printer = AstPrinter::new().with_locations(false).with_types(true);
    assert_eq!(printer.print_expr(&e), "I64(-5): ❬i64❭\n");
    let unknown = lit(LiteralExpr::I64(7), 0, 1);
    assert_eq!(printer.print_expr(&unknown), "I64(7)\n");
    let both = AstNode::new(Expr::Literal(LiteralExpr::Bool(true)), span(3, 7), factory.bool());
    assert_eq!(
        AstPrinter::new().with_types(true).print_expr(&both),
        "Bool(true)     [3+4]: ❬bool❭\n"
    );
}

fn sample_module() -> AstNode<Module> {
    let let_stmt = stmt(Stmt::Let(LetStmt {
        name: ident("x"),
        expression: lit(LiteralExpr::I64(1), 0, 0),
        type_expression: None,
    }));
    let struct_stmt = stmt(Stmt::Struct(StructStmt {
        name: ident("Point"),
        fields: vec![node(
            StructStmtField { name: ident("x"), type_expression: read("f64", 0, 0) },
            0,
            0,
        )],
    }));
    let trait_stmt = stmt(Stmt::Trait(TraitStmt { name: ident("Show") }));
    let body = node(
        Expr::Block(BlockExpr {
            stmts: vec![stmt(Stmt::Expression(ExprStmt {
                expression: node(Expr::Return(ReturnExpr { expression: read("a", 0, 0) }), 0, 0),
            }))],
            result_expression: lit(LiteralExpr::Unit, 0, 0),
        }),
        0,
        0,
    );
    let fun_stmt = stmt(Stmt::Fun(FunStmt {
        name: ident("add"),
        parameters: vec![FunParameter::new(ident("a"), read("i64", 0, 0))],
        return_type: read("i64", 0, 0),
        body,
    }));
    let method = node(
        FunStmt {
            name: ident("get"),
            parameters: vec![],
            return_type: read("f64", 0, 0),
            body: node(
                Expr::Block(BlockExpr {
                    stmts: vec![],
                    result_expression: node(
                        Expr::Get(GetExpr { object: read("self", 0, 0), name: ident("x") }),
                        0,
                        0,
                    ),
                }),
                0,
                0,
            ),
        },
        0,
        0,
    );
    let impl_stmt = stmt(Stmt::Impl(ImplStmt { name: ident("Point"), methods: vec![method] }));
    let if_expr = node(
        Expr::If(IfExpr {
            condition: read("c", 0, 0),
            then_expr: node(
                Expr::SetField(SetExpr {
                    object: read("p", 0, 0),
                    name: ident("y"),
                    value: lit(LiteralExpr::I64(2), 0, 0),
                }),
                0,
                0,
            ),
            else_expr: Some(node(
                Expr::CreateStruct(CreateStructExpr {
                    type_expression: read("Point", 0, 0),
                    field_initializers: vec![CreateStructInitializer {
                        field_name: ident("x"),
                        expression: lit(LiteralExpr::I64(1), 0, 0),
                    }],
                }),
                0,
                0,
            )),
        }),
        0,
        0,
    );
    let while_stmt = stmt(Stmt::While(WhileStmt {
        condition: lit(LiteralExpr::Bool(true), 0, 0),
        body_stmt: stmt(Stmt::Expression(ExprStmt { expression: if_expr })),
    }));
    node(
        Module {
            name: FullName::new("main"),
            stmts: vec![let_stmt, struct_stmt, trait_stmt, fun_stmt, impl_stmt, while_stmt],
        },
        0,
        0,
    )
}

#[test]
fn print_module_without_locations() {
    let expected = "\
Module
├── Let ''x' (Identifier)'
│   └── I64(1)
├── Struct 'Point'
│   └── Field x
│       └── Read 'f64'
├── Trait 'Show'
├── Declare fun 'add(a)'
│   ├── Param a
│   │   └── Read 'i64'
│   ├── Return type: Read 'i64'
│   ├── Return
│   │   └── Read 'a'
│   └── Unit
├── Impl 'Point'
│   └── Method: Declare fun 'get()'
│       ├── Return type: Read 'f64'
│       └── Get x
│           └── Read 'self'
└── While
    ├── Bool(true)
    └── If
        ├── Read 'c'
        ├── Set y
        │   ├── Read 'p'
        │   └── I64(2)
        └── Create struct
            ├── Read 'Point'
            └── x: I64(1)
";
    let printed = AstPrinter::new().with_locations(false).print(&sample_module());
    assert_eq!(printed, expected);
}

#[test]
fn print_module_with_locations() {
    let field = node(StructStmtField { name: ident("x"), type_expression: read("f64", 12, 15) }, 9, 15);
    let struct_stmt = node(Stmt::Struct(StructStmt { name: ident("P"), fields: vec![field] }), 0, 17);
    let trait_stmt = node(Stmt::Trait(TraitStmt { name: ident("T") }), 18, 26);
    let m = node(Module { name: FullName::new("main"), stmts: vec![struct_stmt, trait_stmt] }, 0, 26);
    let expected = "\
Module
├── Struct 'P'     [0+17]
│   └── Field x     [9+6]
│       └── Read 'f64'     [12+3]
└── Trait 'T'
";
    assert_eq!(ast_to_string(&m), expected);
    assert_eq!(AstPrinter::new().print(&m), expected);
}

#[test]
fn print_empty_module() {
    let m = node(Module { name: FullName::new("main"), stmts: vec![] }, 0, 0);
    assert_eq!(ast_to_string(&m), "Module\n");
}

fn without_location_suffixes(text: &str) -> String {
    let mut out = String::new();
    for line in text.lines() {
        match line.find("     [") {
            Some(start) => {
                let end = start + line[start..].find(']').unwrap() + 1;
                out.push_str(&line[..start]);
                out.push_str(&line[end..]);
            }
            None => out.push_str(line),
        }
        out.push('\n');
    }
    out
}

#[test]
fn printing_without_locations_deletes_the_suffixes() {
    let factory = TypeFactory::new();
    let typed_literal = AstNode::new(Expr::Literal(LiteralExpr::I64(3)), span(8, 9), factory.i64());
    let e = node(
        Expr::Call(CallExpr {
            callee: read("foo", 0, 3),
            arguments: vec![binary("+", typed_literal, f64_lit("2.0", 10, 11), 4, 11)],
        }),
        0,
        12,
    );
    for types in [false, true] {
        let with = AstPrinter::new().with_types(types).print_expr(&e);
        let without = AstPrinter::new().with_types(types).with_locations(false).print_expr(&e);
        assert_eq!(without, without_location_suffixes(&with));
        assert_eq!(AstPrinter::new().with_types(types).with_locations(true).print_expr(&e), with);
    }
    let m = sample_module();
    assert_eq!(
        AstPrinter::new().with_locations(false).print(&m),
        without_location_suffixes(&AstPrinter::new().print(&m))
    );
}
