//! Errors that point into a source file.
use vstd::prelude::*;
use crate::base::error::FelicoError;
use crate::base::source_excerpt::SourceExcerpt;

verus! {

/// An error message together with the excerpt of source it is about.
pub struct SourceError {
    message: String,
    source_excerpt: SourceExcerpt,
}

impl SourceError {
    /// The message, in specifications.
    pub closed spec fn spec_message(&self) -> Seq<char> {
        self.message@
    }

    /// The excerpt, in specifications.
    pub closed spec fn spec_source_excerpt(&self) -> SourceExcerpt {
        self.source_excerpt
    }

    /// An error about `source_excerpt`.
    pub fn new(message: String, source_excerpt: SourceExcerpt) -> (e: Self)
        ensures
            e.spec_message() == message@,
            e.spec_source_excerpt() == source_excerpt,
    {
        Self { message, source_excerpt }
    }

    /// The message.
    pub fn message(&self) -> (s: &str)
        ensures
            s@ == self.spec_message(),
    {
        self.message.as_str()
    }

    /// The excerpt.
    pub fn source_excerpt(&self) -> (e: &SourceExcerpt)
        ensures
            *e == self.spec_source_excerpt(),
    {
        &self.source_excerpt
    }

    /// The error as a general error: it displays as its message.
    pub fn into_error(self) -> (e: FelicoError)
        ensures
            e.message@ == self.spec_message(),
    {
        FelicoError::message(self.message)
    }
}

} // verus!
