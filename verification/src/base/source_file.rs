//! Source files: a path and the text it holds.
use vstd::prelude::*;
use crate::base::source_excerpt::SourceExcerpt;
use crate::text::{at_char_boundary, count_lines, line_count, substring};
use vstd::utf8::{decode_utf8, encode_utf8, encode_utf8_decode_utf8};

verus! {

/// The path of a source file.
pub type FilePath = String;

/// The text of a source file.
pub type SourceType = String;

/// A source file: its path and its content.
pub struct SourceFile {
    path: FilePath,
    content: SourceType,
}

impl SourceFile {
    /// The path, in specifications.
    pub closed spec fn spec_path(&self) -> Seq<char> {
        self.path@
    }

    /// The content, in specifications.
    pub closed spec fn spec_content(&self) -> Seq<char> {
        self.content@
    }

    /// A source file from its path and content.
    pub fn new(path: FilePath, content: SourceType) -> (f: Self)
        ensures
            f.spec_path() == path@,
            f.spec_content() == content@,
    {
        Self { path, content }
    }

    /// A source file held in memory, named `path`.
    pub fn in_memory(path: &str, content: &str) -> (f: Self)
        ensures
            f.spec_path() == path@,
            f.spec_content() == content@,
    {
        Self { path: path.to_owned(), content: content.to_owned() }
    }

    /// The path.
    pub fn path(&self) -> (s: &str)
        ensures
            s@ == self.spec_path(),
    {
        self.path.as_str()
    }

    /// The content.
    pub fn content(&self) -> (s: &str)
        ensures
            s@ == self.spec_content(),
    {
        self.content.as_str()
    }

    /// The excerpt between the byte offsets `start` and `end`: its text, the
    /// number of lines before it (as `str::lines` counts them) and its offset.
    pub fn excerpt(&self, start: usize, end: usize) -> (e: SourceExcerpt)
        requires
            start <= end <= encode_utf8(self.spec_content()).len(),
            at_char_boundary(self.spec_content(), start as int),
            at_char_boundary(self.spec_content(), end as int),
        ensures
            e.spec_file_path() == self.spec_path(),
            e.spec_source_excerpt() == decode_utf8(
                encode_utf8(self.spec_content()).subrange(start as int, end as int),
            ),
            e.spec_start_line() == line_count(
                decode_utf8(encode_utf8(self.spec_content()).subrange(0, start as int)),
            ),
            e.spec_start_offset() == start,
    {
        proof {
            vstd::utf8::encode_utf8_valid_utf8(self.spec_content());
            vstd::utf8::is_char_boundary_start_end_of_seq(encode_utf8(self.spec_content()));
        }
        let before = substring(self.content.as_str(), 0, start);
        let text = substring(self.content.as_str(), start, end);
        proof {
            encode_utf8_decode_utf8(before@);
            encode_utf8_decode_utf8(text@);
        }
        let start_line = count_lines(before);
        SourceExcerpt::new(self.path.clone(), text.to_owned(), start_line, start)
    }
}

} // verus!
