use felico::base::source_file::SourceFile;
use felico::lexer::lexer::Lexer;
use felico::lexer::token::{token_kind_to_name, TokenKind};

fn input_to_test_string(input: &str) -> String {
    let source_file = SourceFile::new("test".to_string(), input.to_string());
    let mut lexer = Lexer::new(&source_file);
    let mut test_string = String::new();
    loop {
        let token = lexer.next_token().unwrap();
        test_string.push_str(&format!(
            "🧩 {:3}+{:<2} {:14} {}\n",
            token.location.start,
            token.location.end - token.location.start,
            token_kind_to_name(token.kind),
            token.lexeme,
        ));
        if token.kind == TokenKind::EOF {
            break;
        }
    }
    test_string
}

fn test_lex_symbol(input: &str, expected: &str) {
    let test_string = input_to_test_string(input);
    assert_eq!(
        test_string,
        format!("🧩   0+1  {expected:14} {input}\n🧩   1+0  EOF            \n")
    );
}

#[test]
fn paren_open() {
    test_lex_symbol("(", "ParenOpen");
}

#[test]
fn paren_close() {
    test_lex_symbol(")", "ParenClose");
}

#[test]
fn brace_open() {
    test_lex_symbol("{", "BraceOpen");
}

#[test]
fn brace_close() {
    test_lex_symbol("}", "BraceClose");
}

#[test]
fn bracket_open() {
    test_lex_symbol("[", "BracketOpen");
}

#[test]
fn bracket_close() {
    test_lex_symbol("]", "BracketClose");
}

#[test]
fn comma() {
    test_lex_symbol(",", "Comma");
}

#[test]
fn semicolon() {
    test_lex_symbol(";", "Semicolon");
}

#[test]
fn colon() {
    test_lex_symbol(":", "Colon");
}

#[test]
fn dot() {
    test_lex_symbol(".", "Dot");
}

#[test]
fn lex_empty() {
    assert_eq!(input_to_test_string(""), "🧩   0+0  EOF            \n");
}

#[test]
fn lex_parens() {
    assert_eq!(
        input_to_test_string("()"),
        "🧩   0+1  ParenOpen      (\n🧩   1+1  ParenClose     )\n🧩   2+0  EOF            \n"
    );
}

#[test]
fn lex_string_empty() {
    assert_eq!(
        input_to_test_string("\"\""),
        "🧩   0+2  String         \"\"\n🧩   2+0  EOF            \n"
    );
}

#[test]
fn lex_string_one_char() {
    assert_eq!(
        input_to_test_string("\"x\""),
        "🧩   0+3  String         \"x\"\n🧩   3+0  EOF            \n"
    );
}

#[test]
fn lex_string_multiple_chars() {
    assert_eq!(
        input_to_test_string("\"hello\""),
        "🧩   0+7  String         \"hello\"\n🧩   7+0  EOF            \n"
    );
}

#[test]
fn lex_string_astronaut() {
    assert_eq!(
        input_to_test_string("\"👨‍🚀\""),
        "🧩   0+13 String         \"👨‍🚀\"\n🧩  13+0  EOF            \n"
    );
}

#[test]
fn lex_fun() {
    assert_eq!(
        input_to_test_string("fun "),
        "🧩   0+3  Fun            fun\n🧩   4+0  EOF            \n"
    );
}

#[test]
fn lex_identifier() {
    assert_eq!(
        input_to_test_string("foobar"),
        "🧩   0+6  Identifier     foobar\n🧩   6+0  EOF            \n"
    );
}

#[test]
fn lex_function() {
    assert_eq!(
        input_to_test_string("fun foo() {}"),
        "🧩   0+3  Fun            fun
🧩   4+3  Identifier     foo
🧩   7+1  ParenOpen      (
🧩   8+1  ParenClose     )
🧩  10+1  BraceOpen      {
🧩  11+1  BraceClose     }
🧩  12+0  EOF            \n"
    );
}

#[test]
fn lex_eof_repeats_at_end() {
    let source_file = SourceFile::new("test".to_string(), "x".to_string());
    let mut lexer = Lexer::new(&source_file);
    assert_eq!(lexer.next_token().unwrap().kind, TokenKind::Identifier);
    for _ in 0..3 {
        let token = lexer.next_token().unwrap();
        assert_eq!(token.kind, TokenKind::EOF);
        assert_eq!((token.location.start, token.location.end), (1, 1));
    }
}

#[test]
fn lex_unterminated_string() {
    let source_file = SourceFile::new("test".to_string(), "\"abc".to_string());
    let mut lexer = Lexer::new(&source_file);
    let error = lexer.next_token().err().unwrap();
    assert_eq!(error.message, "Unterminated string");
}

#[test]
fn lex_unexpected_character() {
    let source_file = SourceFile::new("test".to_string(), "  #".to_string());
    let mut lexer = Lexer::new(&source_file);
    let error = lexer.next_token().err().unwrap();
    assert_eq!(error.message, "Unexpected character: #");
}

#[test]
fn lex_identifier_takes_second_character() {
    // After the first character of an identifier the next one is taken whatever it is.
    assert_eq!(
        input_to_test_string("a("),
        "🧩   0+2  Identifier     a(\n🧩   2+0  EOF            \n"
    );
}

#[test]
fn lex_next_gives_tokens() {
    let source_file = SourceFile::new("test".to_string(), "fun".to_string());
    let mut lexer = Lexer::new(&source_file);
    let token = lexer.next().unwrap().unwrap();
    assert_eq!(token.kind, TokenKind::Fun);
    assert_eq!(token.lexeme, "fun");
    let token = lexer.next().unwrap().unwrap();
    assert_eq!(token.kind, TokenKind::EOF);
}

#[test]
fn lex_end_marker_ends_input() {
    assert_eq!(
        input_to_test_string("ab\u{2404}cd"),
        "🧩   0+2  Identifier     ab\n🧩   2+0  EOF            \n"
    );
}

#[test]
fn lex_ascii_identifier_characters() {
    assert_eq!(
        input_to_test_string("fun a_1b c"),
        "🧩   0+3  Fun            fun\n🧩   4+4  Identifier     a_1b\n🧩   9+1  Identifier     c\n🧩  10+0  EOF            \n"
    );
}
