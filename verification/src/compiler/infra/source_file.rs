//! Source files of the compiler: a name and the source code, shared by every span.
use vstd::prelude::*;
use std::sync::Arc;

verus! {

/// The name and the text of a source file.
pub struct SourceFileInner {
    pub filename: String,
    pub source_code: String,
}

/// A source file, shared by the spans that point into it (also across threads, as
/// diagnostics renderers ask).
#[derive(Clone)]
pub struct SourceFile {
    pub inner: Arc<SourceFileInner>,
}

impl SourceFile {
    /// A source file named `filename` with `source_code`.
    pub fn from_string(filename: &str, source_code: &str) -> (f: Self)
        ensures
            f.inner.filename@ == filename@,
            f.inner.source_code@ == source_code@,
    {
        SourceFile {
            inner: Arc::new(SourceFileInner {
                filename: filename.to_owned(),
                source_code: source_code.to_owned(),
            }),
        }
    }

    /// The name of the file.
    pub fn filename(&self) -> (s: &str)
        ensures
            s@ == self.inner.filename@,
    {
        self.inner.filename.as_str()
    }

    /// The source code.
    pub fn source_code(&self) -> (s: &str)
        ensures
            s@ == self.inner.source_code@,
    {
        self.inner.source_code.as_str()
    }
}

} // verus!
