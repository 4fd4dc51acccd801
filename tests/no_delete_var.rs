use deno_lint::ast::{Node, NodeKind, Program, Span, UnaryOp, VarDeclKind};
use deno_lint::context::{Context, Diagnostic};
use deno_lint::no_delete_var::{NoDeleteVar, NoDeleteVarHint, NoDeleteVarMessage, NoDeleteVarVisitor, CODE, DOCS};
use deno_lint::rule::LintRule;
use deno_lint::visit::walk_node;

fn sp(lo: u32, hi: u32) -> Span {
    Span { lo, hi }
}

fn ident(lo: u32, name: &str) -> Node {
    Node::Ident { span: sp(lo, lo + name.len() as u32), sym: name.to_string() }
}

fn node(kind: NodeKind, lo: u32, hi: u32, children: Vec<Node>) -> Node {
    Node::Compound { span: sp(lo, hi), kind, children }
}

fn unary(op: UnaryOp, lo: u32, hi: u32, arg: Node) -> Node {
    Node::Unary { span: sp(lo, hi), op, arg: Box::new(arg) }
}

fn string_lit(lo: u32, hi: u32) -> Node {
    node(NodeKind::Literal, lo, hi, vec![])
}

fn lint(program: &Program) -> Vec<Diagnostic> {
    let rule = NoDeleteVar::new();
    let mut ctx = Context::new();
    rule.lint_program(&mut ctx, program);
    ctx.into_diagnostics()
}

fn assert_is_delete_var(d: &Diagnostic, lo: u32, hi: u32) {
    assert_eq!(d.span, sp(lo, hi));
    assert_eq!(d.code, "no-delete-var");
    assert_eq!(d.message, NoDeleteVarMessage::Unexpected.as_str());
    assert_eq!(d.hint.as_deref(), Some(NoDeleteVarHint::Remove.as_str()));
}

/// `<kind> someVar = "someVar"; delete someVar;`, with `kw` the keyword.
fn declare_then_delete(kind: VarDeclKind, kw: &str) -> Program {
    let k = kw.len() as u32;
    // `someVar = "someVar"` starts after the keyword and a space.
    let d = k + 1;
    let decl = node(
        NodeKind::VarDecl(kind),
        0,
        d + 20,
        vec![node(NodeKind::VarDeclarator, d, d + 19, vec![ident(d, "someVar"), string_lit(d + 10, d + 19)])],
    );
    let del = d + 21;
    let stmt = node(
        NodeKind::ExprStmt,
        del,
        del + 15,
        vec![unary(UnaryOp::Delete, del, del + 14, ident(del + 7, "someVar"))],
    );
    Program::Script(vec![decl, stmt])
}

#[test]
fn no_delete_var_invalid() {
    // var someVar = "someVar"; delete someVar;
    let program = declare_then_delete(VarDeclKind::Var, "var");
    let diagnostics = lint(&program);
    assert_eq!(diagnostics.len(), 1);
    // The program is one line, so the column is the offset.
    assert_eq!(diagnostics[0].span.lo, 25);
    assert_eq!(diagnostics[0].message, NoDeleteVarMessage::Unexpected.as_str());
    assert_eq!(diagnostics[0].hint.as_deref(), Some(NoDeleteVarHint::Remove.as_str()));
    assert_is_delete_var(&diagnostics[0], 25, 39);
}

#[test]
fn no_delete_var_let_and_const() {
    let p = declare_then_delete(VarDeclKind::Let, "let");
    let ds = lint(&p);
    assert_eq!(ds.len(), 1);
    assert_is_delete_var(&ds[0], 25, 39);

    let p = declare_then_delete(VarDeclKind::Const, "const");
    let ds = lint(&p);
    assert_eq!(ds.len(), 1);
    assert_is_delete_var(&ds[0], 27, 41);
}

#[test]
fn no_delete_var_valid_property() {
    // var obj = { a: 1 }; delete obj.a;
    let object = node(
        NodeKind::Object,
        10,
        18,
        vec![node(NodeKind::Property, 12, 16, vec![node(NodeKind::PropName, 12, 13, vec![]), string_lit(15, 16)])],
    );
    let decl = node(
        NodeKind::VarDecl(VarDeclKind::Var),
        0,
        19,
        vec![node(NodeKind::VarDeclarator, 4, 18, vec![ident(4, "obj"), object])],
    );
    let member = node(NodeKind::Member, 27, 32, vec![ident(27, "obj"), ident(31, "a")]);
    let stmt = node(NodeKind::ExprStmt, 20, 33, vec![unary(UnaryOp::Delete, 20, 32, member)]);
    let program = Program::Script(vec![decl, stmt]);
    assert_eq!(lint(&program).len(), 0);
}

#[test]
fn no_delete_var_computed_property() {
    // delete obj["a"];
    let member = node(NodeKind::ComputedMember, 7, 15, vec![ident(7, "obj"), string_lit(11, 14)]);
    let stmt = node(NodeKind::ExprStmt, 0, 16, vec![unary(UnaryOp::Delete, 0, 15, member)]);
    assert_eq!(lint(&Program::Module(vec![stmt])).len(), 0);
}

#[test]
fn no_delete_var_other_operators() {
    let ops = [UnaryOp::Minus, UnaryOp::Plus, UnaryOp::Bang, UnaryOp::Tilde, UnaryOp::TypeOf, UnaryOp::Void];
    for op in ops {
        let stmt = node(NodeKind::ExprStmt, 0, 10, vec![unary(op, 0, 9, ident(7, "x"))]);
        assert_eq!(lint(&Program::Script(vec![stmt])).len(), 0);
    }
}

#[test]
fn no_delete_var_nested_in_source_order() {
    // function f() { if (delete a) { delete b; } } delete c;
    let inner = node(NodeKind::ExprStmt, 31, 40, vec![unary(UnaryOp::Delete, 31, 39, ident(38, "b"))]);
    let block = node(NodeKind::Block, 29, 42, vec![inner]);
    let cond = unary(UnaryOp::Delete, 19, 27, ident(26, "a"));
    let if_stmt = node(NodeKind::If, 15, 42, vec![cond, block]);
    let body = node(NodeKind::Block, 13, 44, vec![if_stmt]);
    let func = node(NodeKind::Function, 0, 44, vec![ident(9, "f"), body]);
    let last = node(NodeKind::ExprStmt, 45, 54, vec![unary(UnaryOp::Delete, 45, 53, ident(52, "c"))]);
    let ds = lint(&Program::Module(vec![func, last]));
    assert_eq!(ds.len(), 3);
    assert_is_delete_var(&ds[0], 19, 27);
    assert_is_delete_var(&ds[1], 31, 39);
    assert_is_delete_var(&ds[2], 45, 53);
}

#[test]
fn no_delete_var_delete_of_delete() {
    // delete (delete x): the inner one deletes a name, the outer one does not.
    let inner = unary(UnaryOp::Delete, 8, 16, ident(15, "x"));
    let paren = node(NodeKind::Paren, 7, 17, vec![inner]);
    let stmt = node(NodeKind::ExprStmt, 0, 18, vec![unary(UnaryOp::Delete, 0, 17, paren)]);
    let ds = lint(&Program::Script(vec![stmt]));
    assert_eq!(ds.len(), 1);
    assert_is_delete_var(&ds[0], 8, 16);
}

#[test]
fn no_delete_var_skips_type_syntax() {
    let ty = Node::TypeAnnotation {
        span: sp(0, 20),
        children: vec![unary(UnaryOp::Delete, 2, 10, ident(9, "t"))],
    };
    assert_eq!(lint(&Program::Script(vec![ty])).len(), 0);
}

#[test]
fn no_delete_var_is_deterministic() {
    let program = declare_then_delete(VarDeclKind::Var, "var");
    let rule = NoDeleteVar::new();
    let mut ctx = Context::new();
    rule.lint_program(&mut ctx, &program);
    rule.lint_program(&mut ctx, &program);
    let ds = ctx.into_diagnostics();
    assert_eq!(ds.len(), 2);
    assert_eq!(ds[0].span, ds[1].span);
    assert_eq!(ds[0].code, ds[1].code);
    assert_eq!(ds[0].message, ds[1].message);
    assert_eq!(ds[0].hint, ds[1].hint);
}

#[test]
fn no_delete_var_empty_program() {
    assert_eq!(lint(&Program::Module(vec![])).len(), 0);
    assert_eq!(lint(&Program::Script(vec![])).len(), 0);
}

#[test]
fn no_delete_var_metadata() {
    let rule = NoDeleteVar::new();
    assert_eq!(rule.code(), "no-delete-var");
    assert_eq!(CODE, "no-delete-var");
    assert_eq!(rule.tags(), vec!["recommended"]);
    let docs = rule.docs();
    assert_eq!(docs, DOCS);
    assert!(docs.starts_with("Disallows the deletion of variables"));
    assert!(docs.contains("### Invalid:"));
    assert!(docs.contains("delete a;"));
    assert!(docs.contains("delete b;"));
    assert!(docs.contains("delete c;"));
    assert!(docs.contains("### Valid:"));
    assert!(docs.contains("delete obj.a;"));
    assert_eq!(NoDeleteVarMessage::Unexpected.as_str(), "Variables shouldn't be deleted");
    assert_eq!(NoDeleteVarHint::Remove.as_str(), "Remove the deletion statement");
}

#[test]
fn context_keeps_order_and_hints() {
    let mut ctx = Context::new();
    assert_eq!(ctx.diagnostics().len(), 0);
    ctx.add_diagnostic(sp(1, 2), "a-code", "first");
    ctx.add_diagnostic_with_hint(sp(3, 4), "b-code", "second", "do this");
    let ds = ctx.diagnostics();
    assert_eq!(ds.len(), 2);
    assert_eq!(ds[0].span, sp(1, 2));
    assert_eq!(ds[0].code, "a-code");
    assert_eq!(ds[0].message, "first");
    assert_eq!(ds[0].hint, None);
    assert_eq!(ds[1].span, sp(3, 4));
    assert_eq!(ds[1].code, "b-code");
    assert_eq!(ds[1].message, "second");
    assert_eq!(ds[1].hint.as_deref(), Some("do this"));
}

#[test]
fn node_span_is_the_whole_node() {
    let n = unary(UnaryOp::Delete, 4, 12, ident(11, "x"));
    assert_eq!(n.span(), sp(4, 12));
    assert_eq!(ident(3, "abc").span(), sp(3, 6));
}

#[test]
fn visitor_walks_a_single_expression() {
    let visitor = NoDeleteVarVisitor::new();
    let mut ctx = Context::new();
    // !(delete x)
    let n = unary(UnaryOp::Bang, 0, 11, node(NodeKind::Paren, 1, 11, vec![unary(UnaryOp::Delete, 2, 10, ident(9, "x"))]));
    walk_node(&visitor, &mut ctx, &n, None);
    let ds = ctx.into_diagnostics();
    assert_eq!(ds.len(), 1);
    assert_is_delete_var(&ds[0], 2, 10);
}
