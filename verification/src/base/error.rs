//! The error type of the toolchain.
use vstd::prelude::*;
use crate::text::push_str;

verus! {

/// An error, carrying the message that describes it and, for an error about a
/// place in a source file, a label that points there.
#[derive(Debug)]
pub struct FelicoError {
    pub message: String,
    pub label: Option<ErrorLabel>,
}

/// A label on a byte range `start..end` of the source file at `file_path`.
#[derive(Debug)]
pub struct ErrorLabel {
    pub file_path: String,
    pub start: usize,
    pub end: usize,
    pub text: String,
}

/// The text `Error: <message>` followed by a line break, as errors print in tests.
pub open spec fn error_test_text(message: Seq<char>) -> Seq<char> {
    "Error: "@ + message + "\n"@
}

impl FelicoError {
    /// An error with the given message.
    pub fn message(s: String) -> (e: Self)
        ensures
            e.message@ == s@,
            e.label is None,
    {
        FelicoError { message: s, label: None }
    }

    /// An error with the given message and a label on a range of a source file.
    pub fn labeled(message: String, label: ErrorLabel) -> (e: Self)
        ensures
            e.message@ == message@,
            e.label == Some(label),
    {
        FelicoError { message, label: Some(label) }
    }

    /// The message of the error.
    pub fn get_message(&self) -> (s: &str)
        ensures
            s@ == self.message@,
    {
        self.message.as_str()
    }

    /// The error rendered as `Error: <message>` and a line break.
    pub fn to_test_string(&self) -> (s: String)
        ensures
            s@ == error_test_text(self.message@),
    {
        let mut s = String::new();
        push_str(&mut s, "Error: ");
        push_str(&mut s, self.message.as_str());
        push_str(&mut s, "\n");
        proof {
            reveal_strlit("Error: ");
            reveal_strlit("\n");
        }
        s
    }
}

/// The result type used throughout the toolchain.
pub type FelicoResult<T> = Result<T, FelicoError>;

} // verus!
