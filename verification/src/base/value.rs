//! Literal values of the language.
use vstd::prelude::*;
use crate::text::{push_char, push_str};

verus! {

/// A literal value.
pub enum Value {
    String(String),
}

/// The printed form of a string value: the text in double quotes.
pub open spec fn string_value_text(s: Seq<char>) -> Seq<char> {
    seq!['"'] + s + seq!['"']
}

/// The printed form of a value.
pub open spec fn value_text(v: Value) -> Seq<char> {
    match v {
        Value::String(s) => string_value_text(s@),
    }
}

impl Value {
    /// A string value.
    pub fn string(string: &str) -> (v: Self)
        ensures
            v matches Value::String(s) && s@ == string@,
    {
        Value::String(string.to_owned())
    }

    /// The printed form of the value (a string in double quotes).
    pub fn to_display_string(&self) -> (s: String)
        ensures
            s@ == value_text(*self),
    {
        match self {
            Value::String(string) => {
                let mut s = String::new();
                push_char(&mut s, '"');
                push_str(&mut s, string.as_str());
                push_char(&mut s, '"');
                s
            },
        }
    }
}

} // verus!
