//! Locations: byte ranges of a source file.
use vstd::prelude::*;
use crate::compiler::infra::source_file::SourceFile;
use crate::compiler::infra::source_span::{ByteOffset, EPHEMERAL_FILE};
use crate::text::str_equal;

verus! {

/// The byte range `start_byte..end_byte` of a source file.
pub struct Location {
    pub source_file: SourceFile,
    pub start_byte: ByteOffset,
    pub end_byte: ByteOffset,
}

impl Location {
    /// An empty location at the start of an empty file named `<ephemeral file>`.
    pub fn ephemeral() -> (l: Location)
        ensures
            l.source_file.inner.filename@ == EPHEMERAL_FILE@,
            l.source_file.inner.source_code@ == Seq::<char>::empty(),
            l.start_byte == 0,
            l.end_byte == 0,
    {
        proof {
            reveal_strlit("");
        }
        Location { source_file: SourceFile::from_string(EPHEMERAL_FILE, ""), start_byte: 0, end_byte: 0 }
    }

    /// Whether the location points into the file named `<ephemeral file>`.
    pub fn is_ephemeral(&self) -> (b: bool)
        ensures
            b == (self.source_file.inner.filename@ == EPHEMERAL_FILE@),
    {
        str_equal(self.source_file.filename(), EPHEMERAL_FILE)
    }
}

} // verus!
