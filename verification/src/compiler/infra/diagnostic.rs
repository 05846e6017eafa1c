//! Diagnostics: messages about a program, each at a span, with labelled spans beside it.
use vstd::prelude::*;
use crate::compiler::infra::source_span::SourceSpan;

verus! {

/// A span with a text that says what stands there.
pub struct DiagnosticLabel {
    pub location: SourceSpan,
    pub text: String,
}

/// A message about a program, at a span, with labelled spans beside it.
pub struct InterpreterDiagnostic {
    pub location: SourceSpan,
    pub message: String,
    pub labels: Vec<DiagnosticLabel>,
}

/// A diagnostic as a value: its span, its message and its labels, in order.
pub struct DiagnosticModel {
    pub location: SourceSpan,
    pub message: Seq<char>,
    pub labels: Seq<(SourceSpan, Seq<char>)>,
}

impl View for InterpreterDiagnostic {
    type V = DiagnosticModel;

    open spec fn view(&self) -> DiagnosticModel {
        DiagnosticModel {
            location: self.location,
            message: self.message@,
            labels: self.labels@.map_values(|l: DiagnosticLabel| (l.location, l.text@)),
        }
    }
}

/// The diagnostics of a sequence, each as a value.
pub open spec fn diagnostic_views(ds: Seq<InterpreterDiagnostic>) -> Seq<DiagnosticModel> {
    ds.map_values(|d: InterpreterDiagnostic| d@)
}

impl InterpreterDiagnostic {
    /// A diagnostic with `message` at `location`, without labels.
    pub fn new(location: &SourceSpan, message: String) -> (d: Self)
        ensures
            d@ == (DiagnosticModel { location: *location, message: message@, labels: Seq::empty() }),
    {
        let d = InterpreterDiagnostic { location: location.duplicate(), message, labels: Vec::new() };
        assert(d@.labels =~= Seq::<(SourceSpan, Seq<char>)>::empty());
        d
    }

    /// Adds the label `text` at `location` after the others.
    pub fn add_label(&mut self, location: &SourceSpan, text: String)
        ensures
            final(self)@ == (DiagnosticModel {
                location: old(self)@.location,
                message: old(self)@.message,
                labels: old(self)@.labels.push((*location, text@)),
            }),
    {
        self.labels.push(DiagnosticLabel { location: location.duplicate(), text });
        assert(self@.labels =~= old(self)@.labels.push((*location, text@)));
    }
}

} // verus!
