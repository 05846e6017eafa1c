//! Spans: byte ranges of a source file, with their line and column numbers.
use vstd::prelude::*;
use vstd::utf8::encode_utf8;
use crate::compiler::infra::source_file::SourceFile;
use crate::compiler::infra::shared::share_arc;
use crate::text::{at_char_boundary, decimal, push_decimal, push_str, str_equal, substring};

verus! {

/// A byte offset into a source file.
pub type ByteOffset = i32;

/// The name of the file that ephemeral spans and locations point into.
pub const EPHEMERAL_FILE: &'static str = "<ephemeral file>";

/// The byte range `start_byte..end_byte` of a source file.
#[derive(Clone)]
pub struct SourceSpan {
    pub source_file: SourceFile,
    pub start_byte: ByteOffset,
    pub end_byte: ByteOffset,
}

/// The number of line-feed bytes in `bytes`.
pub open spec fn newline_count(bytes: Seq<u8>) -> nat
    decreases bytes.len(),
{
    if bytes.len() == 0 {
        0
    } else {
        newline_count(bytes.drop_last()) + if bytes.last() == 10 { 1nat } else { 0nat }
    }
}

/// The number of bytes at the end of `bytes` after its last line feed.
pub open spec fn trailing_line_len(bytes: Seq<u8>) -> nat
    decreases bytes.len(),
{
    if bytes.len() == 0 || bytes.last() == 10 {
        0
    } else {
        trailing_line_len(bytes.drop_last()) + 1
    }
}

proof fn lemma_newline_count_len(bytes: Seq<u8>)
    ensures
        newline_count(bytes) <= bytes.len(),
    decreases bytes.len(),
{
    if bytes.len() > 0 {
        lemma_newline_count_len(bytes.drop_last());
    }
}

proof fn lemma_trailing_line_len(bytes: Seq<u8>)
    ensures
        trailing_line_len(bytes) <= bytes.len(),
    decreases bytes.len(),
{
    if bytes.len() > 0 && bytes.last() != 10 {
        lemma_trailing_line_len(bytes.drop_last());
    }
}

impl SourceSpan {
    /// The bytes of the span's source code.
    pub open spec fn code_bytes(&self) -> Seq<u8> {
        encode_utf8(self.source_file.inner.source_code@)
    }

    /// An empty span at the start of an empty file named `<ephemeral file>`.
    pub fn ephemeral() -> (s: Self)
        ensures
            s.source_file.inner.filename@ == EPHEMERAL_FILE@,
            s.source_file.inner.source_code@ == Seq::<char>::empty(),
            s.start_byte == 0,
            s.end_byte == 0,
    {
        proof {
            reveal_strlit("");
        }
        SourceSpan { source_file: SourceFile::from_string(EPHEMERAL_FILE, ""), start_byte: 0, end_byte: 0 }
    }

    /// The same span, sharing the source file.
    pub fn duplicate(&self) -> (s: Self)
        ensures
            s == *self,
    {
        SourceSpan {
            source_file: SourceFile { inner: share_arc(&self.source_file.inner) },
            start_byte: self.start_byte,
            end_byte: self.end_byte,
        }
    }

    /// Whether the span points into the file named `<ephemeral file>`.
    pub fn is_ephemeral(&self) -> (b: bool)
        ensures
            b == (self.source_file.inner.filename@ == EPHEMERAL_FILE@),
    {
        str_equal(self.source_file.filename(), EPHEMERAL_FILE)
    }

    /// The source code of the span.
    pub fn get_source_code(&self) -> (s: &str)
        requires
            0 <= self.start_byte <= self.end_byte <= self.code_bytes().len(),
            at_char_boundary(self.source_file.inner.source_code@, self.start_byte as int),
            at_char_boundary(self.source_file.inner.source_code@, self.end_byte as int),
        ensures
            encode_utf8(s@) == self.code_bytes().subrange(self.start_byte as int, self.end_byte as int),
    {
        substring(self.source_file.source_code(), self.start_byte as usize, self.end_byte as usize)
    }

    /// The line of the span's start, counted from 1: one more than the line feeds
    /// before it.
    pub fn get_line_number(&self) -> (n: usize)
        requires
            0 <= self.start_byte <= self.code_bytes().len(),
        ensures
            n == newline_count(self.code_bytes().take(self.start_byte as int)) + 1,
    {
        let bytes = self.source_file.source_code().as_bytes();
        let end = self.start_byte as usize;
        let mut count: usize = 0;
        let mut i: usize = 0;
        while i < end
            invariant
                bytes@ == self.code_bytes(),
                end == self.start_byte,
                end <= bytes@.len(),
                i <= end,
                count == newline_count(bytes@.take(i as int)),
                count <= i,
            decreases end - i,
        {
            assert(bytes@.take(i + 1).drop_last() =~= bytes@.take(i as int));
            if bytes[i] == 10 {
                count = count + 1;
            }
            i = i + 1;
        }
        count + 1
    }

    /// The column of the span's start, counted in bytes from 1: one more than the
    /// bytes between the last line feed before it and it.
    pub fn get_column_number(&self) -> (n: usize)
        requires
            0 <= self.start_byte <= self.code_bytes().len(),
        ensures
            n == trailing_line_len(self.code_bytes().take(self.start_byte as int)) + 1,
    {
        let bytes = self.source_file.source_code().as_bytes();
        let end = self.start_byte as usize;
        let mut count: usize = 0;
        while count < end && bytes[end - 1 - count] != 10
            invariant
                bytes@ == self.code_bytes(),
                end == self.start_byte,
                end <= bytes@.len(),
                count <= end,
                trailing_line_len(bytes@.take(end as int)) == count + trailing_line_len(
                    bytes@.take(end - count),
                ),
            decreases end - count,
        {
            assert(bytes@.take(end - count).drop_last() =~= bytes@.take(end - count - 1));
            count = count + 1;
        }
        proof {
            if count < end {
                assert(bytes@.take(end - count).last() == 10);
            }
        }
        count + 1
    }

    /// How the span is shown in diagnostics: `[<file name>:<line>:<column>]`.
    pub fn to_debug_string(&self) -> (s: String)
        requires
            0 <= self.start_byte <= self.code_bytes().len(),
        ensures
            s@ == "["@ + self.source_file.inner.filename@ + ":"@ + decimal(
                newline_count(self.code_bytes().take(self.start_byte as int)) + 1,
            ) + ":"@ + decimal(trailing_line_len(self.code_bytes().take(self.start_byte as int)) + 1)
                + "]"@,
    {
        let line = self.get_line_number();
        let column = self.get_column_number();
        let mut s = String::new();
        push_str(&mut s, "[");
        push_str(&mut s, self.source_file.filename());
        push_str(&mut s, ":");
        push_decimal(&mut s, line as u64);
        push_str(&mut s, ":");
        push_decimal(&mut s, column as u64);
        push_str(&mut s, "]");
        s
    }
}

} // verus!
