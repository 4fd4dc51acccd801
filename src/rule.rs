use vstd::prelude::*;
use crate::ast::Program;
use crate::context::{Context, DiagnosticView};

verus! {

/// The surface that every analysis pass offers: a stable code, grouping
/// tags, documentation, and an entry point that reports into a context.
pub trait LintRule {
    /// The rule's diagnostic code.
    spec fn code_text(&self) -> Seq<char>;

    /// The rule's grouping tags, each once.
    spec fn tag_list(&self) -> Seq<Seq<char>>;

    /// The rule's documentation text.
    spec fn docs_text(&self) -> Seq<char>;

    /// The diagnostics that one run of the rule reports on `program`.
    spec fn findings(&self, program: Program) -> Seq<DiagnosticView>;

    fn new() -> Box<Self>
        where Self: Sized,
    ;

    fn tags(&self) -> (r: Vec<&'static str>)
        ensures
            r@.map_values(|t: &'static str| t@) == self.tag_list(),
            r@.map_values(|t: &'static str| t@).no_duplicates(),
    ;

    fn code(&self) -> (r: &'static str)
        ensures
            r@ == self.code_text(),
    ;

    fn docs(&self) -> (r: &'static str)
        ensures
            r@ == self.docs_text(),
    ;

    /// Runs the rule on `program`: what it reports is appended to `ctx`, and
    /// nothing else of `ctx` changes.
    fn lint_program(&self, ctx: &mut Context, program: &Program)
        ensures
            final(ctx)@ == old(ctx)@ + self.findings(*program),
    ;
}

} // verus!
