//! Failures of expansion, unified into one diagnostic representation.
//!
//! Every error carries the most specific source position available and a
//! descriptive message; instead of aborting, an expansion that fails emits a
//! `compile_error!` invocation built from its diagnostic.

use crate::text::{escape_spec, escape_text};
use vstd::prelude::*;
use vstd::string::StringExecFns;

verus! {

/// Where a diagnostic points: the whole argument list of the attribute, the
/// whole annotated item, or one token of the argument list, by its index.
#[derive(Clone, Copy, Debug, PartialEq, Eq, Structural)]
pub enum Span {
    Args,
    Input,
    ArgToken(usize),
}

/// One position-anchored message.
#[derive(Clone, Debug)]
pub struct Diagnostic {
    pub span: Span,
    pub message: String,
}

/// The spec-level value of a [`Diagnostic`].
pub struct DiagnosticView {
    pub span: Span,
    pub message: Seq<char>,
}

impl DeepView for Diagnostic {
    type V = DiagnosticView;

    open spec fn deep_view(&self) -> DiagnosticView {
        DiagnosticView { span: self.span, message: self.message@ }
    }
}

/// A failure of expansion.  The two variants keep the two unrelated failure
/// sources apart: `Grammar` for a token or signature of the wrong shape (and
/// for a missing build environment), `Validation` for a well-formed argument
/// list whose content does not validate.
#[derive(Clone, Debug)]
pub enum Error {
    Grammar(Diagnostic),
    Validation(Diagnostic),
}

/// The spec-level value of an [`Error`].
pub enum ErrorView {
    Grammar(DiagnosticView),
    Validation(DiagnosticView),
}

impl DeepView for Error {
    type V = ErrorView;

    open spec fn deep_view(&self) -> ErrorView {
        match self {
            Error::Grammar(d) => ErrorView::Grammar(d.deep_view()),
            Error::Validation(d) => ErrorView::Validation(d.deep_view()),
        }
    }
}

/// A grammar-level error at the given position.
pub open spec fn grammar_at(span: Span, message: Seq<char>) -> ErrorView {
    ErrorView::Grammar(DiagnosticView { span, message })
}

/// A validation-level error at the given position.
pub open spec fn validation_at(span: Span, message: Seq<char>) -> ErrorView {
    ErrorView::Validation(DiagnosticView { span, message })
}

/// The diagnostic carried by an error, whichever source it came from.
pub open spec fn spec_diagnostic(e: ErrorView) -> DiagnosticView {
    match e {
        ErrorView::Grammar(d) => d,
        ErrorView::Validation(d) => d,
    }
}

/// The replacement output for a failed expansion: a `compile_error!`
/// invocation carrying the escaped message.
pub open spec fn compile_error_text(e: ErrorView) -> Seq<char> {
    "::core::compile_error! { \""@ + escape_spec(spec_diagnostic(e).message) + "\" }"@
}

impl Error {
    pub fn grammar(span: Span, message: String) -> (r: Error)
        ensures
            r.deep_view() == grammar_at(span, message@),
    {
        Error::Grammar(Diagnostic { span, message })
    }

    pub fn validation(span: Span, message: String) -> (r: Error)
        ensures
            r.deep_view() == validation_at(span, message@),
    {
        Error::Validation(Diagnostic { span, message })
    }

    /// The diagnostic carried by this error.
    pub fn diagnostic(&self) -> (r: &Diagnostic)
        ensures
            r.deep_view() == spec_diagnostic(self.deep_view()),
    {
        match self {
            Error::Grammar(d) => d,
            Error::Validation(d) => d,
        }
    }

    /// Convert this error into the source text that replaces the expansion's
    /// output, so the failure surfaces as an ordinary compilation error.
    pub fn into_compile_error(self) -> (r: String)
        ensures
            r@ == compile_error_text(self.deep_view()),
    {
        let d = self.diagnostic();
        let mut r = String::from_str("::core::compile_error! { \"");
        let escaped = escape_text(d.message.as_str());
        r.append(escaped.as_str());
        r.append("\" }");
        r
    }
}

} // verus!
