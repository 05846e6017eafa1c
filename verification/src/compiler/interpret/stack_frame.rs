//! Stack frames of the interpreter.
use vstd::prelude::*;
use crate::compiler::infra::source_span::SourceSpan;

verus! {

/// A frame of the interpreter's stack: the span of the call that entered it.
pub struct StackFrame {
    pub call_source_span: SourceSpan,
}

} // verus!
