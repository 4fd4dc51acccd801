use vstd::prelude::*;
use crate::ast::Span;

verus! {

/// What a diagnostic says, as mathematical values.
pub struct DiagnosticView {
    pub span: Span,
    pub code: Seq<char>,
    pub message: Seq<char>,
    pub hint: Option<Seq<char>>,
}

/// One reported violation.
#[derive(Debug)]
pub struct Diagnostic {
    pub span: Span,
    pub code: String,
    pub message: String,
    pub hint: Option<String>,
}

impl View for Diagnostic {
    type V = DiagnosticView;

    open spec fn view(&self) -> DiagnosticView {
        DiagnosticView {
            span: self.span,
            code: self.code@,
            message: self.message@,
            hint: match self.hint {
                Some(h) => Some(h@),
                None => None,
            },
        }
    }
}

/// The sink of one analysis run: diagnostics in the order they were reported.
pub struct Context {
    diagnostics: Vec<Diagnostic>,
}

impl View for Context {
    type V = Seq<DiagnosticView>;

    closed spec fn view(&self) -> Seq<DiagnosticView> {
        self.diagnostics@.map_values(|d: Diagnostic| d@)
    }
}

impl Context {
    /// A context with no diagnostics yet.
    pub fn new() -> (r: Context)
        ensures
            r@ == Seq::<DiagnosticView>::empty(),
    {
        let r = Context { diagnostics: Vec::new() };
        assert(r@ =~= Seq::<DiagnosticView>::empty());
        r
    }

    /// Appends a diagnostic without a hint.
    pub fn add_diagnostic(&mut self, span: Span, code: &str, message: &str)
        ensures
            final(self)@ == old(self)@.push(
                DiagnosticView { span, code: code@, message: message@, hint: None },
            ),
    {
        let d = Diagnostic {
            span,
            code: code.to_owned(),
            message: message.to_owned(),
            hint: None,
        };
        self.diagnostics.push(d);
        assert(self@ =~= old(self)@.push(
            DiagnosticView { span, code: code@, message: message@, hint: None },
        ));
    }

    /// Appends a diagnostic that carries a remediation hint.
    pub fn add_diagnostic_with_hint(&mut self, span: Span, code: &str, message: &str, hint: &str)
        ensures
            final(self)@ == old(self)@.push(
                DiagnosticView { span, code: code@, message: message@, hint: Some(hint@) },
            ),
    {
        let d = Diagnostic {
            span,
            code: code.to_owned(),
            message: message.to_owned(),
            hint: Some(hint.to_owned()),
        };
        self.diagnostics.push(d);
        assert(self@ =~= old(self)@.push(
            DiagnosticView { span, code: code@, message: message@, hint: Some(hint@) },
        ));
    }

    /// The diagnostics reported so far, in order.
    pub fn diagnostics(&self) -> (r: &Vec<Diagnostic>)
        ensures
            r@.map_values(|d: Diagnostic| d@) == self@,
    {
        &self.diagnostics
    }

    /// Ends the run and hands the diagnostics to the caller.
    pub fn into_diagnostics(self) -> (r: Vec<Diagnostic>)
        ensures
            r@.map_values(|d: Diagnostic| d@) == self@,
    {
        self.diagnostics
    }
}

} // verus!
