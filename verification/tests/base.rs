use felico::base::ansi::unansi;
use felico::base::error::FelicoError;
use felico::base::file_location::FileLocation;
use felico::base::source_error::SourceError;
use felico::base::source_excerpt::SourceExcerpt;
use felico::base::source_file::SourceFile;
use felico::base::value::Value;

#[test]
fn excerpt_counts_lines_before_it() {
    let file = SourceFile::new("main.fel".to_string(), "a\nbb\nccc\n".to_string());
    let excerpt = file.excerpt(5, 8);
    assert_eq!(excerpt.file_path(), "main.fel");
    assert_eq!(excerpt.source_excerpt(), "ccc");
    assert_eq!(excerpt.start_line(), 2);
    assert_eq!(excerpt.start_offset(), 5);
    let at_start = file.excerpt(0, 1);
    assert_eq!(at_start.start_line(), 0);
    assert_eq!(at_start.source_excerpt(), "a");
}

#[test]
fn excerpt_of_multibyte_text() {
    let file = SourceFile::in_memory("m.fel", "é\nx");
    let excerpt = file.excerpt(3, 4);
    assert_eq!(excerpt.source_excerpt(), "x");
    assert_eq!(excerpt.start_line(), 1);
    assert_eq!(file.path(), "m.fel");
    assert_eq!(file.content(), "é\nx");
}

#[test]
fn source_error_parts() {
    let excerpt = SourceExcerpt::new("f".to_string(), "x".to_string(), 3, 7);
    let error = SourceError::new("bad".to_string(), excerpt);
    assert_eq!(error.message(), "bad");
    assert_eq!(error.source_excerpt().start_line(), 3);
    assert_eq!(error.source_excerpt().start_offset(), 7);
    let general = error.into_error();
    assert_eq!(general.get_message(), "bad");
    assert_eq!(general.to_test_string(), "Error: bad\n");
}

#[test]
fn error_test_string() {
    let error = FelicoError::message("boom".to_string());
    assert_eq!(error.to_test_string(), "Error: boom\n");
    assert!(error.label.is_none());
}

#[test]
fn value_display() {
    assert_eq!(Value::string("hi").to_display_string(), "\"hi\"");
    assert_eq!(Value::string("").to_display_string(), "\"\"");
}

#[test]
fn file_location_parts() {
    let file = SourceFile::in_memory("p", "abc");
    let location = FileLocation::new(&file, 1, 2);
    assert_eq!((location.start, location.end), (1, 2));
    assert_eq!(location.source_file.path(), "p");
}

#[test]
fn unansi_strips_escapes() {
    assert_eq!(unansi("\x1b[32mfoo\x1b[m bar"), "foo bar");
    assert_eq!(unansi("plain"), "plain");
}
