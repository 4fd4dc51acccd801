use vstd::prelude::*;
use crate::ast::{Node, NodeKind, Program, Span, UnaryOp};
use crate::context::{Context, DiagnosticView};

verus! {

broadcast use vstd::std_specs::vec::group_vec_axioms, vstd::seq::group_seq_axioms;

/// The extension points of a tree walk. A visitor states, for each kind of
/// node it looks at, the diagnostics it reports on reaching such a node; the
/// walk itself goes on into the children whatever the visitor does.
pub trait Visit {
    /// Diagnostics reported on reaching a unary operation held by `parent`.
    spec fn unary_findings(
        &self,
        span: Span,
        op: UnaryOp,
        arg: Node,
        parent: Option<Node>,
    ) -> Seq<DiagnosticView>;

    /// Diagnostics reported on reaching an identifier held by `parent`.
    spec fn ident_findings(&self, span: Span, sym: Seq<char>, parent: Option<Node>) -> Seq<
        DiagnosticView,
    >;

    /// Diagnostics reported on reaching a container node held by `parent`.
    spec fn compound_findings(
        &self,
        span: Span,
        kind: NodeKind,
        children: Seq<Node>,
        parent: Option<Node>,
    ) -> Seq<DiagnosticView>;

    /// Whether the walk enters type syntax for this visitor.
    spec fn enters_types(&self) -> bool;

    fn visit_unary_expr(
        &self,
        ctx: &mut Context,
        span: Span,
        op: UnaryOp,
        arg: &Node,
        parent: Option<&Node>,
    )
        ensures
            final(ctx)@ == old(ctx)@ + self.unary_findings(span, op, *arg, parent_of(parent)),
    ;

    fn visit_ident(&self, ctx: &mut Context, span: Span, sym: &String, parent: Option<&Node>)
        ensures
            final(ctx)@ == old(ctx)@ + self.ident_findings(span, sym@, parent_of(parent)),
    ;

    fn visit_compound(
        &self,
        ctx: &mut Context,
        span: Span,
        kind: NodeKind,
        children: &Vec<Node>,
        parent: Option<&Node>,
    )
        ensures
            final(ctx)@ == old(ctx)@ + self.compound_findings(
                span,
                kind,
                children@,
                parent_of(parent),
            ),
    ;

    fn visit_types(&self) -> (r: bool)
        ensures
            r == self.enters_types(),
    ;
}

/// The node that a parent reference points to, if any.
pub open spec fn parent_of(parent: Option<&Node>) -> Option<Node> {
    match parent {
        Some(p) => Some(*p),
        None => None,
    }
}

/// What a walk of `n`, held by `parent`, reports, in pre-order: a node before
/// its children, and the children from left to right.
pub open spec fn node_findings<V: Visit>(v: V, n: Node, parent: Option<Node>) -> Seq<
    DiagnosticView,
>
    decreases n,
{
    match n {
        Node::Ident { span, sym } => v.ident_findings(span, sym@, parent),
        Node::Unary { span, op, arg } => v.unary_findings(span, op, *arg, parent) + node_findings(
            v,
            *arg,
            Some(n),
        ),
        Node::TypeAnnotation { children, .. } => {
            if v.enters_types() {
                list_findings(v, children@, Some(n))
            } else {
                Seq::empty()
            }
        },
        Node::Compound { span, kind, children } => v.compound_findings(
            span,
            kind,
            children@,
            parent,
        ) + list_findings(v, children@, Some(n)),
    }
}

/// What walks of the nodes of `s`, all held by `parent`, one after the
/// other, report.
pub open spec fn list_findings<V: Visit>(v: V, s: Seq<Node>, parent: Option<Node>) -> Seq<
    DiagnosticView,
>
    decreases s,
{
    if s.len() == 0 {
        Seq::empty()
    } else {
        list_findings(v, s.subrange(0, s.len() - 1), parent) + node_findings(v, s[s.len() - 1], parent)
    }
}

/// What a walk of the whole program reports.
pub open spec fn program_findings<V: Visit>(v: V, p: Program) -> Seq<DiagnosticView> {
    list_findings(v, p.items(), None)
}

/// Walks `n` and its descendants in pre-order, calling the visitor on each
/// node; `parent` is the node that holds `n`, if any.
pub fn walk_node<V: Visit>(v: &V, ctx: &mut Context, n: &Node, parent: Option<&Node>)
    ensures
        final(ctx)@ == old(ctx)@ + node_findings(*v, *n, parent_of(parent)),
    decreases n,
{
    match n {
        Node::Ident { span, sym } => {
            v.visit_ident(ctx, *span, sym, parent);
        },
        Node::Unary { span, op, arg } => {
            v.visit_unary_expr(ctx, *span, *op, arg, parent);
            walk_node(v, ctx, arg, Some(n));
            assert(final(ctx)@ =~= old(ctx)@ + node_findings(*v, *n, parent_of(parent)));
        },
        Node::TypeAnnotation { children, .. } => {
            if v.visit_types() {
                walk_list(v, ctx, children, Some(n));
            } else {
                assert(final(ctx)@ =~= old(ctx)@ + node_findings(*v, *n, parent_of(parent)));
            }
        },
        Node::Compound { span, kind, children } => {
            v.visit_compound(ctx, *span, *kind, children, parent);
            walk_list(v, ctx, children, Some(n));
            assert(final(ctx)@ =~= old(ctx)@ + node_findings(*v, *n, parent_of(parent)));
        },
    }
}

/// Walks each of `children` in order; `parent` holds them, if any node does.
fn walk_list<V: Visit>(v: &V, ctx: &mut Context, children: &Vec<Node>, parent: Option<&Node>)
    ensures
        final(ctx)@ == old(ctx)@ + list_findings(*v, children@, parent_of(parent)),
    decreases children,
{
    let mut i: usize = 0;
    while i < children.len()
        invariant
            i <= children@.len(),
            ctx@ == old(ctx)@ + list_findings(*v, children@.subrange(0, i as int), parent_of(parent)),
        decreases children@.len() - i,
    {
        walk_node(v, ctx, &children[i], parent);
        proof {
            let s = children@.subrange(0, i + 1);
            assert(s.subrange(0, s.len() - 1) =~= children@.subrange(0, i as int));
        }
        i = i + 1;
    }
    assert(children@.subrange(0, i as int) =~= children@);
}

/// Walks the top-level items of either form of program, in order.
pub fn walk_program<V: Visit>(v: &V, ctx: &mut Context, program: &Program)
    ensures
        final(ctx)@ == old(ctx)@ + program_findings(*v, *program),
{
    match program {
        Program::Module(m) => walk_list(v, ctx, m, None),
        Program::Script(s) => walk_list(v, ctx, s, None),
    }
}

} // verus!
