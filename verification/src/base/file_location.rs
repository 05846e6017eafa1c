//! Locations in source files: a file and a byte range.
use vstd::prelude::*;
use crate::base::source_file::SourceFile;

verus! {

/// A byte range `start..end` in a source file.
pub struct FileLocation<'source> {
    pub source_file: &'source SourceFile,
    pub start: usize,
    pub end: usize,
}

impl<'source> FileLocation<'source> {
    /// The range `start..end` of `source_file`.
    pub fn new(source_file: &'source SourceFile, start: usize, end: usize) -> (l: Self)
        ensures
            *l.source_file == *source_file,
            l.start == start,
            l.end == end,
    {
        Self { source_file, start, end }
    }
}

} // verus!
