use felico::base::error::FelicoError;
use felico::base::source_file::SourceFile;
use felico::lexer::lexer::Lexer;
use felico::parser::parser::Parser;
use felico::parser::string_literal::extract_string_from_lexeme;

fn test_parse_string_from_lexeme(lexeme: &str, expected: &str) {
    let value = extract_string_from_lexeme(lexeme).unwrap();
    assert_eq!(value.to_display_string(), expected);
}

#[test]
fn string_empty() {
    test_parse_string_from_lexeme(r#""""#, r#""""#);
}

#[test]
fn string_simple() {
    test_parse_string_from_lexeme(r#""foo""#, r#""foo""#);
}

#[test]
fn string_escapes() {
    test_parse_string_from_lexeme(
        "\"newline\\ntab\\tbackslash\\\"\"",
        "\"newline\ntab\tbackslash\"\"",
    );
}

#[test]
fn string_escaped_backslash() {
    test_parse_string_from_lexeme(r#""a\\b""#, "\"a\\b\"");
}

#[test]
fn string_invalid_escape() {
    let error = extract_string_from_lexeme(r#""a\qb""#).err().unwrap();
    assert_eq!(error.message, "Invalid escape sequence: \\q");
    assert!(error.label.is_none());
}

#[test]
fn string_incomplete_escape() {
    let error = extract_string_from_lexeme("\"a\\\"").err().unwrap();
    assert_eq!(error.message, "Incomplete escape sequence");
}

fn parse_to_string(path: &str, source: &str, script: bool) -> Result<String, FelicoError> {
    let source_file = SourceFile::in_memory(path, source);
    let lexer = Lexer::new(&source_file);
    let mut parser = Parser::new(&source_file, lexer)?;
    let result = if script { parser.parse_script()? } else { parser.parse()? };
    let mut test_string = String::new();
    result.test_print(&mut test_string, 0)?;
    Ok(test_string)
}

fn test_parse(source: &str, expected: &str) {
    assert_eq!(parse_to_string("test.felico", source, false).unwrap(), expected);
}

fn test_parse_script(source: &str, expected: &str) {
    assert_eq!(parse_to_string("script.felico", source, true).unwrap(), expected);
}

#[test]
fn empty() {
    test_parse("", "🌲   0+0   Compilation Unit\n");
}

#[test]
fn fun_empty() {
    test_parse(
        "fun do_nothing() {}",
        "🌲   0+19  Compilation Unit\n🌲   0+19  fun ❮do_nothing❯\n",
    );
}

#[test]
fn fun_call() {
    test_parse(
        "fun foo() {print(\"hello\"   );}",
        "🌲   0+30  Compilation Unit
🌲   0+30  fun ❮foo❯
🌲  11+17   stmt  call  var use ❮print❯
🌲  17+7       literal \"hello\"
",
    );
}

#[test]
fn script_empty() {
    test_parse_script("", "🌲   0+0   Compilation Unit\n🌲   0+0   fun ❮script❯\n");
}

#[test]
fn script_print() {
    test_parse_script(
        "print(\"hello\");",
        "🌲   0+15  Compilation Unit
🌲   0+15  fun ❮script❯
🌲   0+14   stmt  call  var use ❮print❯
🌲   6+7       literal \"hello\"
",
    );
}

#[test]
fn script_print_twice() {
    test_parse_script(
        r#"
            print("hello");
            print("world");
        "#,
        "🌲  13+43  Compilation Unit
🌲  13+43  fun ❮script❯
🌲  13+14   stmt  call  var use ❮print❯
🌲  19+7       literal \"hello\"
🌲  41+14   stmt  call  var use ❮print❯
🌲  47+7       literal \"world\"
",
    );
}

#[test]
fn error_fun_no_name() {
    let error = parse_to_string("test.felico", "fun () {}", false).err().unwrap();
    assert_eq!(
        error.message,
        "Unexpected token: “(” (Open Parenthesis), expected Identifier"
    );
    let label = error.label.unwrap();
    assert_eq!(label.file_path, "test.felico");
    assert_eq!((label.start, label.end), (4, 5));
    assert_eq!(label.text, "expected Identifier here");
}

#[test]
fn error_no_expression() {
    let error = parse_to_string("script.felico", "}", true).err().unwrap();
    assert_eq!(error.message, "Unexpected token: “}” (Close Brace)");
    let label = error.label.unwrap();
    assert_eq!(label.file_path, "script.felico");
    assert_eq!((label.start, label.end), (0, 1));
    assert_eq!(label.text, "expected primary expression here");
}

#[test]
fn error_unexpected_top_level_token() {
    let error = parse_to_string("test.felico", "foo", false).err().unwrap();
    assert_eq!(error.message, "Unexpected token: Identifier");
    assert!(error.label.is_none());
}

#[test]
fn error_missing_semicolon() {
    let error = parse_to_string("script.felico", "print(\"a\")", true).err().unwrap();
    assert_eq!(error.message, "Unexpected token: “” (End of File), expected Semicolon");
    let label = error.label.unwrap();
    assert_eq!((label.start, label.end), (10, 10));
}

#[test]
fn error_from_lexer_is_passed_on() {
    let error = parse_to_string("script.felico", "print(\"a);", true).err().unwrap();
    assert_eq!(error.message, "Unterminated string");
    assert!(error.label.is_none());
}

#[test]
fn error_invalid_escape_in_literal() {
    let error = parse_to_string("script.felico", "print(\"\\x\");", true).err().unwrap();
    assert_eq!(error.message, "Invalid escape sequence: \\x");
}

#[test]
fn nested_calls() {
    test_parse_script(
        "foo(bar(\"x\"));",
        "🌲   0+14  Compilation Unit
🌲   0+14  fun ❮script❯
🌲   0+13   stmt  call  var use ❮foo❯
🌲   4+8       call  var use ❮bar❯
🌲   8+3        literal \"x\"
",
    );
}

#[test]
fn token_after_function_is_skipped() {
    // After each function definition one more token is skipped, whatever it is.
    test_parse(
        "fun ab() {};",
        "🌲   0+12  Compilation Unit\n🌲   0+11  fun ❮ab❯\n",
    );
}
