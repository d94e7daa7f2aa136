//! What the lint hands to whoever renders it: one diagnostic for each flagged
//! parameter, each with one suggested edit.

use vstd::prelude::*;
use crate::span::{Span, SpanData};

verus! {

/// How far a suggested edit can be trusted to be applied as it stands.
#[derive(Clone, Copy, Debug, PartialEq, Eq)]
pub enum Applicability {
    /// The edit is what the author meant and can be applied mechanically.
    MachineApplicable,
    /// The edit may be what the author meant; it compiles if applied.
    MaybeIncorrect,
    /// The edit holds placeholder text that a person has to fill in.
    HasPlaceholders,
    /// Nothing is known.
    Unspecified,
}

/// How a suggested edit is shown.
#[derive(Clone, Copy, Debug, PartialEq, Eq)]
pub enum SuggestionStyle {
    /// The code is left out of an inline suggestion.
    HideCodeInline,
    /// The code is always left out.
    HideCodeAlways,
    /// The suggestion is kept for tools and not shown at all.
    CompletelyHidden,
    /// The code is shown where the renderer sees fit.
    ShowCode,
    /// The code is always shown, also where it looks like its surroundings.
    ShowAlways,
}

/// The contents of a [`SuggestedEdit`] as plain values.
pub struct SuggestedEditView {
    pub span: SpanData,
    pub message: Seq<char>,
    pub replacement: Seq<char>,
    pub applicability: Applicability,
    pub style: SuggestionStyle,
}

/// A proposed change of the source text: `replacement` takes the place of
/// what `span` covers.
#[derive(Clone, Debug, PartialEq, Eq)]
pub struct SuggestedEdit {
    pub span: Span,
    pub message: String,
    pub replacement: String,
    pub applicability: Applicability,
    pub style: SuggestionStyle,
}

impl View for SuggestedEdit {
    type V = SuggestedEditView;

    open spec fn view(&self) -> SuggestedEditView {
        SuggestedEditView {
            span: self.span@,
            message: self.message@,
            replacement: self.replacement@,
            applicability: self.applicability,
            style: self.style,
        }
    }
}

/// The contents of a [`Diagnostic`] as plain values.
pub struct DiagnosticView {
    pub span: SpanData,
    pub message: Seq<char>,
    pub suggestion: SuggestedEditView,
}

/// One finding: where it is, what it says, and the edit that goes with it.
#[derive(Clone, Debug, PartialEq, Eq)]
pub struct Diagnostic {
    pub span: Span,
    pub message: String,
    pub suggestion: SuggestedEdit,
}

impl View for Diagnostic {
    type V = DiagnosticView;

    open spec fn view(&self) -> DiagnosticView {
        DiagnosticView { span: self.span@, message: self.message@, suggestion: self.suggestion@ }
    }
}

/// The views of a sequence of diagnostics, in order.
pub open spec fn diagnostic_views(diagnostics: Seq<Diagnostic>) -> Seq<DiagnosticView> {
    diagnostics.map_values(|d: Diagnostic| d@)
}

} // verus!
