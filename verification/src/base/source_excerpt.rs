//! Excerpts of source files, as shown with errors.
use vstd::prelude::*;

verus! {

/// A piece of a source file: where it comes from, its text, and where it starts.
pub struct SourceExcerpt {
    file_path: String,
    source_excerpt: String,
    start_line: usize,
    start_offset: usize,
}

impl SourceExcerpt {
    /// The path of the file, in specifications.
    pub closed spec fn spec_file_path(&self) -> Seq<char> {
        self.file_path@
    }

    /// The text of the excerpt, in specifications.
    pub closed spec fn spec_source_excerpt(&self) -> Seq<char> {
        self.source_excerpt@
    }

    /// The line the excerpt starts on, in specifications.
    pub closed spec fn spec_start_line(&self) -> usize {
        self.start_line
    }

    /// The byte offset the excerpt starts at, in specifications.
    pub closed spec fn spec_start_offset(&self) -> usize {
        self.start_offset
    }

    /// An excerpt from its parts.
    pub fn new(file_path: String, source_excerpt: String, start_line: usize, start_offset: usize) -> (e:
        Self)
        ensures
            e.spec_file_path() == file_path@,
            e.spec_source_excerpt() == source_excerpt@,
            e.spec_start_line() == start_line,
            e.spec_start_offset() == start_offset,
    {
        Self { file_path, source_excerpt, start_line, start_offset }
    }

    /// The path of the file.
    pub fn file_path(&self) -> (s: &str)
        ensures
            s@ == self.spec_file_path(),
    {
        self.file_path.as_str()
    }

    /// The text of the excerpt.
    pub fn source_excerpt(&self) -> (s: &str)
        ensures
            s@ == self.spec_source_excerpt(),
    {
        self.source_excerpt.as_str()
    }

    /// The line the excerpt starts on.
    pub fn start_line(&self) -> (l: usize)
        ensures
            l == self.spec_start_line(),
    {
        self.start_line
    }

    /// The byte offset the excerpt starts at.
    pub fn start_offset(&self) -> (o: usize)
        ensures
            o == self.spec_start_offset(),
    {
        self.start_offset
    }
}

} // verus!
