use vstd::prelude::*;
use crate::ast::{children_well_spanned, Node, NodeKind, Program, Span, UnaryOp};
use crate::context::{Context, DiagnosticView};
use crate::rule::LintRule;
use crate::visit::{list_findings, node_findings, program_findings, walk_program, Visit};

verus! {

/// Reports `delete` applied to a bare variable name.
pub struct NoDeleteVar;

pub const CODE: &'static str = "no-delete-var";

/// What the rule is for, with examples of code it reports and code it does not.
pub const DOCS: &'static str = r#"Disallows the deletion of variables

`delete` is used to remove a property from an object.  Variables declared via
`var`, `let` and `const` cannot be deleted (`delete` will return false).  Setting
`strict` mode on will raise a syntax error when attempting to delete a variable.
    
### Invalid:
```typescript
const a = 1;
let b = 2;
var c = 3;
delete a; // would return false
delete b; // would return false
delete c; // would return false
```

### Valid:
```typescript
var obj = {
  a: 1,
};
delete obj.a; // returns true;
```
"#;

/// The messages of the rule.
#[derive(Clone, Copy, Debug, PartialEq, Eq, Structural)]
pub enum NoDeleteVarMessage {
    Unexpected,
}

/// The remediation hints of the rule.
#[derive(Clone, Copy, Debug, PartialEq, Eq, Structural)]
pub enum NoDeleteVarHint {
    Remove,
}

impl NoDeleteVarMessage {
    pub open spec fn text(self) -> Seq<char> {
        match self {
            NoDeleteVarMessage::Unexpected => "Variables shouldn't be deleted"@,
        }
    }

    pub fn as_str(&self) -> (r: &'static str)
        ensures
            r@ == self.text(),
    {
        match self {
            NoDeleteVarMessage::Unexpected => "Variables shouldn't be deleted",
        }
    }
}

impl NoDeleteVarHint {
    pub open spec fn text(self) -> Seq<char> {
        match self {
            NoDeleteVarHint::Remove => "Remove the deletion statement"@,
        }
    }

    pub fn as_str(&self) -> (r: &'static str)
        ensures
            r@ == self.text(),
    {
        match self {
            NoDeleteVarHint::Remove => "Remove the deletion statement",
        }
    }
}

/// The diagnostic reported for a deletion of a variable spanning `span`.
pub open spec fn delete_var_diagnostic(span: Span) -> DiagnosticView {
    DiagnosticView {
        span,
        code: CODE@,
        message: NoDeleteVarMessage::Unexpected.text(),
        hint: Some(NoDeleteVarHint::Remove.text()),
    }
}

/// The visitor of the rule: it looks at unary operations only.
pub struct NoDeleteVarVisitor;

impl NoDeleteVarVisitor {
    pub fn new() -> Self {
        NoDeleteVarVisitor
    }
}

impl Visit for NoDeleteVarVisitor {
    open spec fn unary_findings(
        &self,
        span: Span,
        op: UnaryOp,
        arg: Node,
        parent: Option<Node>,
    ) -> Seq<DiagnosticView> {
        if op == UnaryOp::Delete && arg is Ident {
            seq![delete_var_diagnostic(span)]
        } else {
            Seq::empty()
        }
    }

    open spec fn ident_findings(&self, span: Span, sym: Seq<char>, parent: Option<Node>) -> Seq<
        DiagnosticView,
    > {
        Seq::empty()
    }

    open spec fn compound_findings(
        &self,
        span: Span,
        kind: NodeKind,
        children: Seq<Node>,
        parent: Option<Node>,
    ) -> Seq<DiagnosticView> {
        Seq::empty()
    }

    open spec fn enters_types(&self) -> bool {
        false
    }

    fn visit_unary_expr(
        &self,
        ctx: &mut Context,
        span: Span,
        op: UnaryOp,
        arg: &Node,
        parent: Option<&Node>,
    ) {
        if op != UnaryOp::Delete {
            assert(ctx@ =~= old(ctx)@ + Seq::empty());
            return;
        }
        if let Node::Ident { .. } = arg {
            ctx.add_diagnostic_with_hint(
                span,
                CODE,
                NoDeleteVarMessage::Unexpected.as_str(),
                NoDeleteVarHint::Remove.as_str(),
            );
            assert(ctx@ =~= old(ctx)@ + seq![delete_var_diagnostic(span)]);
        } else {
            assert(ctx@ =~= old(ctx)@ + Seq::empty());
        }
    }

    fn visit_ident(&self, ctx: &mut Context, span: Span, sym: &String, parent: Option<&Node>) {
        assert(ctx@ =~= old(ctx)@ + Seq::empty());
    }

    fn visit_compound(
        &self,
        ctx: &mut Context,
        span: Span,
        kind: NodeKind,
        children: &Vec<Node>,
        parent: Option<&Node>,
    ) {
        assert(ctx@ =~= old(ctx)@ + Seq::empty());
    }

    fn visit_types(&self) -> (r: bool) {
        false
    }
}

impl LintRule for NoDeleteVar {
    open spec fn code_text(&self) -> Seq<char> {
        CODE@
    }

    open spec fn tag_list(&self) -> Seq<Seq<char>> {
        seq!["recommended"@]
    }

    open spec fn docs_text(&self) -> Seq<char> {
        DOCS@
    }

    open spec fn findings(&self, program: Program) -> Seq<DiagnosticView> {
        program_findings(NoDeleteVarVisitor, program)
    }

    fn new() -> Box<Self> {
        Box::new(NoDeleteVar)
    }

    fn tags(&self) -> (r: Vec<&'static str>) {
        let r = vec!["recommended"];
        let ghost tag = "recommended"@;
        assert(r@.map_values(|t: &'static str| t@) =~= seq![tag]);
        r
    }

    fn code(&self) -> (r: &'static str) {
        CODE
    }

    fn lint_program(&self, ctx: &mut Context, program: &Program) {
        let visitor = NoDeleteVarVisitor::new();
        walk_program(&visitor, ctx, program);
    }

    fn docs(&self) -> (r: &'static str) {
        DOCS
    }
}

/// The spans of the deletions of a bare name in `n`, in pre-order.
pub open spec fn variable_deletions(n: Node) -> Seq<Span>
    decreases n,
{
    match n {
        Node::Ident { .. } => Seq::empty(),
        Node::Unary { span, op, arg } => {
            let here = if op == UnaryOp::Delete && *arg is Ident {
                seq![span]
            } else {
                Seq::empty()
            };
            here + variable_deletions(*arg)
        },
        Node::TypeAnnotation { .. } => Seq::empty(),
        Node::Compound { children, .. } => variable_deletions_in(children@),
    }
}

/// The spans of the deletions of a bare name in the nodes of `s`, in order.
pub open spec fn variable_deletions_in(s: Seq<Node>) -> Seq<Span>
    decreases s,
{
    if s.len() == 0 {
        Seq::empty()
    } else {
        variable_deletions_in(s.subrange(0, s.len() - 1)) + variable_deletions(s[s.len() - 1])
    }
}

/// The diagnostics for the deletions at `spans`, one each, in the same order.
pub open spec fn diagnostics_at(spans: Seq<Span>) -> Seq<DiagnosticView> {
    spans.map_values(|s: Span| delete_var_diagnostic(s))
}

/// Every deletion of a bare name in `n`, at any depth outside type syntax,
/// gets exactly one diagnostic, and the diagnostics come in pre-order, which
/// is source order.
pub proof fn each_variable_deletion_is_reported_once(n: Node, parent: Option<Node>)
    ensures
        node_findings(NoDeleteVarVisitor, n, parent) == diagnostics_at(variable_deletions(n)),
        node_findings(NoDeleteVarVisitor, n, parent).len() == variable_deletions(n).len(),
    decreases n,
{
    match n {
        Node::Ident { .. } => {
            assert(diagnostics_at(variable_deletions(n)) =~= Seq::empty());
        },
        Node::Unary { span, op, arg } => {
            each_variable_deletion_is_reported_once(*arg, Some(n));
            assert(node_findings(NoDeleteVarVisitor, n, parent) =~= diagnostics_at(
                variable_deletions(n),
            ));
        },
        Node::TypeAnnotation { .. } => {
            assert(diagnostics_at(variable_deletions(n)) =~= Seq::empty());
        },
        Node::Compound { children, .. } => {
            each_variable_deletion_in_list_is_reported_once(children@, Some(n));
            assert(node_findings(NoDeleteVarVisitor, n, parent) =~= diagnostics_at(
                variable_deletions(n),
            ));
        },
    }
}

/// The same for the nodes of `s`, held by `parent`, walked one after the
/// other.
pub proof fn each_variable_deletion_in_list_is_reported_once(s: Seq<Node>, parent: Option<Node>)
    ensures
        list_findings(NoDeleteVarVisitor, s, parent) == diagnostics_at(variable_deletions_in(s)),
    decreases s,
{
    if s.len() == 0 {
        assert(diagnostics_at(variable_deletions_in(s)) =~= Seq::empty());
    } else {
        let init = s.subrange(0, s.len() - 1);
        each_variable_deletion_in_list_is_reported_once(init, parent);
        each_variable_deletion_is_reported_once(s[s.len() - 1], parent);
        assert(list_findings(NoDeleteVarVisitor, s, parent) =~= diagnostics_at(
            variable_deletions_in(s),
        ));
    }
}

/// A whole program: one diagnostic per deletion of a bare name, in order.
pub proof fn each_variable_deletion_in_program_is_reported_once(rule: NoDeleteVar, program: Program)
    ensures
        rule.findings(program) == diagnostics_at(variable_deletions_in(program.items())),
        rule.findings(program).len() == variable_deletions_in(program.items()).len(),
{
    each_variable_deletion_in_list_is_reported_once(program.items(), None);
}

/// Two runs of the rule on one program report the same diagnostics in the
/// same order, whatever the two contexts held before.
pub proof fn lint_is_deterministic(
    rule: NoDeleteVar,
    program: Program,
    before1: Seq<DiagnosticView>,
    after1: Seq<DiagnosticView>,
    before2: Seq<DiagnosticView>,
    after2: Seq<DiagnosticView>,
)
    requires
        after1 == before1 + rule.findings(program),
        after2 == before2 + rule.findings(program),
    ensures
        after1.subrange(before1.len() as int, after1.len() as int) == after2.subrange(
            before2.len() as int,
            after2.len() as int,
        ),
{
    assert(after1.subrange(before1.len() as int, after1.len() as int) =~= rule.findings(program));
    assert(after2.subrange(before2.len() as int, after2.len() as int) =~= rule.findings(program));
}

/// A unary operator other than `delete`, applied to a name, reports nothing,
/// wherever it stands.
pub proof fn other_unary_operators_are_inert(n: Node, parent: Option<Node>)
    requires
        n is Unary,
        n->op != UnaryOp::Delete,
        *n->arg is Ident,
    ensures
        node_findings(NoDeleteVarVisitor, n, parent) == Seq::<DiagnosticView>::empty(),
{
    assert(node_findings(NoDeleteVarVisitor, *n->arg, Some(n)) =~= Seq::<DiagnosticView>::empty());
    assert(node_findings(NoDeleteVarVisitor, n, parent) =~= Seq::<DiagnosticView>::empty());
}

/// Deleting a property `o.p` (or `o[p]`) reports only what `o` and `p`
/// report themselves: nothing at all where neither holds a deletion of a
/// bare name. This holds wherever the deletion stands.
pub proof fn property_deletion_is_not_reported(n: Node, parent: Option<Node>)
    requires
        n is Unary,
        n->op == UnaryOp::Delete,
        *n->arg is Compound,
        n->arg->kind == NodeKind::Member || n->arg->kind == NodeKind::ComputedMember,
        n->arg->Compound_children@.len() == 2,
    ensures
        node_findings(NoDeleteVarVisitor, n, parent) == node_findings(
            NoDeleteVarVisitor,
            n->arg->Compound_children@[0],
            Some(*n->arg),
        ) + node_findings(NoDeleteVarVisitor, n->arg->Compound_children@[1], Some(*n->arg)),
        variable_deletions(n->arg->Compound_children@[0]).len() == 0 && variable_deletions(
            n->arg->Compound_children@[1],
        ).len() == 0 ==> node_findings(NoDeleteVarVisitor, n, parent).len() == 0,
{
    let s = n->arg->Compound_children@;
    let m = Some(*n->arg);
    let first = s.subrange(0, 1);
    assert(first.subrange(0, 0) =~= Seq::<Node>::empty());
    assert(list_findings(NoDeleteVarVisitor, Seq::<Node>::empty(), m) =~= Seq::<
        DiagnosticView,
    >::empty());
    assert(s.subrange(0, 2) =~= s);
    assert(s.subrange(0, 1) =~= first);
    assert(first[0] == s[0]);
    assert(list_findings(NoDeleteVarVisitor, s, m) == list_findings(NoDeleteVarVisitor, first, m)
        + node_findings(NoDeleteVarVisitor, s[1], m));
    assert(list_findings(NoDeleteVarVisitor, s.subrange(0, 1), m) =~= node_findings(
        NoDeleteVarVisitor,
        s[0],
        m,
    ));
    assert(node_findings(NoDeleteVarVisitor, *n->arg, Some(n)) =~= list_findings(
        NoDeleteVarVisitor,
        s,
        m,
    ));
    assert(node_findings(NoDeleteVarVisitor, n, parent) =~= node_findings(
        NoDeleteVarVisitor,
        *n->arg,
        Some(n),
    ));
    each_variable_deletion_is_reported_once(s[0], m);
    each_variable_deletion_is_reported_once(s[1], m);
}

/// Is `n` the expression `delete v`?
pub open spec fn is_delete_of(n: Node, v: Seq<char>) -> bool {
    &&& n is Unary
    &&& n->op == UnaryOp::Delete
    &&& *n->arg is Ident
    &&& n->arg->sym@ == v
}

/// Is `n` the statement `delete v;`?
pub open spec fn is_delete_statement_of(n: Node, v: Seq<char>) -> bool {
    &&& n is Compound
    &&& n->kind == NodeKind::ExprStmt
    &&& n->Compound_children@.len() == 1
    &&& is_delete_of(n->Compound_children@[0], v)
}

/// Is `n` a declaration (by `var`, `let` or `const`) whose first declarator
/// binds the name `v`?
pub open spec fn is_declaration_of(n: Node, v: Seq<char>) -> bool {
    &&& n is Compound
    &&& n->kind is VarDecl
    &&& n->Compound_children@.len() >= 1
    &&& n->Compound_children@[0] is Compound
    &&& n->Compound_children@[0]->kind == NodeKind::VarDeclarator
    &&& n->Compound_children@[0]->Compound_children@.len() >= 1
    &&& n->Compound_children@[0]->Compound_children@[0] is Ident
    &&& n->Compound_children@[0]->Compound_children@[0]->sym@ == v
}

/// A declaration of `v`, in any of its forms, followed by `delete v;` gets
/// exactly one diagnostic: it spans the whole `delete v` expression and
/// carries the rule's code, message and hint. The declaration is one that
/// holds no deletion of a bare name of its own.
pub proof fn deleting_a_declared_variable_is_reported(
    rule: NoDeleteVar,
    program: Program,
    v: Seq<char>,
)
    requires
        program.items().len() == 2,
        is_declaration_of(program.items()[0], v),
        variable_deletions(program.items()[0]).len() == 0,
        is_delete_statement_of(program.items()[1], v),
    ensures
        rule.findings(program) == seq![
            delete_var_diagnostic(program.items()[1]->Compound_children@[0].span_of()),
        ],
        rule.findings(program).len() == 1,
        rule.findings(program)[0].span == program.items()[1]->Compound_children@[0].span_of(),
        rule.findings(program)[0].code == "no-delete-var"@,
        rule.findings(program)[0].message == "Variables shouldn't be deleted"@,
        rule.findings(program)[0].hint == Some("Remove the deletion statement"@),
{
    let items = program.items();
    let del = items[1]->Compound_children@[0];
    each_variable_deletion_in_program_is_reported_once(rule, program);
    assert(items.subrange(0, 1).subrange(0, 0) =~= Seq::<Node>::empty());
    assert(variable_deletions_in(Seq::<Node>::empty()) =~= Seq::<Span>::empty());
    assert(items.subrange(0, 2) =~= items);
    assert(items.subrange(0, 1)[0] == items[0]);
    assert(variable_deletions_in(items.subrange(0, 1)) =~= variable_deletions(items[0]));
    let stmt = items[1]->Compound_children@;
    assert(stmt.subrange(0, 0) =~= Seq::<Node>::empty());
    assert(stmt.subrange(0, 1) =~= stmt);
    assert(variable_deletions(*del->arg) =~= Seq::<Span>::empty());
    assert(variable_deletions(del) =~= seq![del.span_of()]);
    assert(variable_deletions_in(stmt) =~= seq![del.span_of()]);
    assert(variable_deletions(items[1]) =~= seq![del.span_of()]);
    assert(variable_deletions_in(items) =~= seq![del.span_of()]);
    assert(diagnostics_at(seq![del.span_of()]) =~= seq![delete_var_diagnostic(del.span_of())]);
}

/// The spans of `d` come one after another, without overlap.
pub open spec fn in_source_order(d: Seq<Span>) -> bool {
    forall|i: int, j: int| 0 <= i < j < d.len() ==> d[i].hi <= d[j].lo
}

/// Each span of `d` is non-empty and lies within `lo..hi`.
pub open spec fn all_within(d: Seq<Span>, lo: u32, hi: u32) -> bool {
    forall|i: int| 0 <= i < d.len() ==> lo <= d[i].lo && d[i].lo < d[i].hi && d[i].hi <= hi
}

proof fn lemma_concat_in_source_order(a: Seq<Span>, b: Seq<Span>, mid: u32)
    requires
        in_source_order(a),
        in_source_order(b),
        forall|i: int| 0 <= i < a.len() ==> a[i].hi <= mid,
        forall|i: int| 0 <= i < b.len() ==> mid <= b[i].lo,
    ensures
        in_source_order(a + b),
{
    let d = a + b;
    assert forall|i: int, j: int| 0 <= i < j < d.len() implies d[i].hi <= d[j].lo by {
        if j < a.len() {
            assert(d[i] == a[i] && d[j] == a[j]);
        } else if i >= a.len() {
            assert(d[i] == b[i - a.len()] && d[j] == b[j - a.len()]);
        } else {
            assert(d[i] == a[i] && d[j] == b[j - a.len()]);
        }
    }
}

proof fn lemma_deletions_in_source_order(n: Node)
    requires
        n.well_spanned(),
    ensures
        in_source_order(variable_deletions(n)),
        all_within(variable_deletions(n), n.span_of().lo, n.span_of().hi),
    decreases n,
{
    match n {
        Node::Ident { .. } => {
            assert(variable_deletions(n) =~= Seq::<Span>::empty());
        },
        Node::Unary { span, op, arg } => {
            lemma_deletions_in_source_order(*arg);
            assert(arg.well_spanned());
            assert(arg.span_of().lo <= arg.span_of().hi);
            if op == UnaryOp::Delete && *arg is Ident {
                assert(variable_deletions(*arg) =~= Seq::<Span>::empty());
                assert(variable_deletions(n) =~= seq![span]);
            } else {
                assert(variable_deletions(n) =~= variable_deletions(*arg));
            }
        },
        Node::TypeAnnotation { .. } => {
            assert(variable_deletions(n) =~= Seq::<Span>::empty());
        },
        Node::Compound { span, children, .. } => {
            lemma_list_deletions_in_source_order(span, children@);
        },
    }
}

proof fn lemma_list_deletions_in_source_order(span: Span, s: Seq<Node>)
    requires
        children_well_spanned(span, s),
    ensures
        in_source_order(variable_deletions_in(s)),
        all_within(variable_deletions_in(s), span.lo, span.hi),
        s.len() > 0 ==> all_within(variable_deletions_in(s), span.lo, s[s.len() - 1].span_of().hi),
    decreases s,
{
    if s.len() > 0 {
        let init = s.subrange(0, s.len() - 1);
        let last = s[s.len() - 1];
        lemma_list_deletions_in_source_order(span, init);
        lemma_deletions_in_source_order(last);
        let a = variable_deletions_in(init);
        let b = variable_deletions(last);
        assert(variable_deletions_in(s) == a + b);
        if init.len() > 0 {
            assert(all_within(a, span.lo, init[init.len() - 1].span_of().hi));
        } else {
            assert(a =~= Seq::<Span>::empty());
        }
        lemma_concat_in_source_order(a, b, last.span_of().lo);
        assert forall|i: int| 0 <= i < (a + b).len() implies span.lo <= (a + b)[i].lo && (a
            + b)[i].lo < (a + b)[i].hi && (a + b)[i].hi <= last.span_of().hi by {
            if i < a.len() {
                assert((a + b)[i] == a[i]);
            } else {
                assert((a + b)[i] == b[i - a.len()]);
            }
        }
    }
}

/// Where the program is laid out as source text is (each item well spanned
/// and within `whole`, one after another), the rule's diagnostics come in
/// source order: each one ends before the next begins, so their starts
/// strictly increase.
pub proof fn findings_come_in_source_order(rule: NoDeleteVar, program: Program, whole: Span)
    requires
        children_well_spanned(whole, program.items()),
    ensures
        forall|i: int, j: int|
            0 <= i < j < rule.findings(program).len() ==> rule.findings(program)[i].span.hi
                <= rule.findings(program)[j].span.lo,
        forall|i: int, j: int|
            0 <= i < j < rule.findings(program).len() ==> rule.findings(program)[i].span.lo
                < rule.findings(program)[j].span.lo,
{
    each_variable_deletion_in_program_is_reported_once(rule, program);
    lemma_list_deletions_in_source_order(whole, program.items());
    let f = rule.findings(program);
    let d = variable_deletions_in(program.items());
    assert forall|i: int, j: int| 0 <= i < j < f.len() implies f[i].span.lo < f[j].span.lo by {
        assert(f[i].span == d[i] && f[j].span == d[j]);
    }
}

} // verus!
