use vstd::prelude::*;

verus! {

/// A source range, as byte offsets into the program text.
#[derive(Clone, Copy, Debug, PartialEq, Eq, Structural)]
pub struct Span {
    pub lo: u32,
    pub hi: u32,
}

/// The unary operators of the language.
#[derive(Clone, Copy, Debug, PartialEq, Eq, Structural)]
pub enum UnaryOp {
    Minus,
    Plus,
    Bang,
    Tilde,
    TypeOf,
    Void,
    Delete,
}

/// The three forms of a variable declaration.
#[derive(Clone, Copy, Debug, PartialEq, Eq, Structural)]
pub enum VarDeclKind {
    Var,
    Let,
    Const,
}

/// The kind of a container node: any construct that is neither an identifier
/// nor a unary operation nor type syntax.
#[derive(Clone, Copy, Debug, PartialEq, Eq, Structural)]
pub enum NodeKind {
    ExprStmt,
    VarDecl(VarDeclKind),
    VarDeclarator,
    Block,
    If,
    Return,
    Function,
    Call,
    Member,
    ComputedMember,
    PropName,
    Object,
    Property,
    Array,
    Binary,
    Assign,
    Paren,
    Sequence,
    Literal,
    Other,
}

/// A node of the syntax tree. Container nodes keep their children in source
/// order; a unary operation always has its operand.
#[derive(Debug)]
pub enum Node {
    Ident { span: Span, sym: String },
    Unary { span: Span, op: UnaryOp, arg: Box<Node> },
    TypeAnnotation { span: Span, children: Vec<Node> },
    Compound { span: Span, kind: NodeKind, children: Vec<Node> },
}

/// A parsed program: the module form admits import and export syntax, the
/// script form does not. Both hold their top-level items in source order.
#[derive(Debug)]
pub enum Program {
    Module(Vec<Node>),
    Script(Vec<Node>),
}

impl Node {
    pub open spec fn span_of(self) -> Span {
        match self {
            Node::Ident { span, .. } => span,
            Node::Unary { span, .. } => span,
            Node::TypeAnnotation { span, .. } => span,
            Node::Compound { span, .. } => span,
        }
    }

    /// The span of the whole node.
    pub fn span(&self) -> (r: Span)
        ensures
            r == self.span_of(),
    {
        match self {
            Node::Ident { span, .. } => *span,
            Node::Unary { span, .. } => *span,
            Node::TypeAnnotation { span, .. } => *span,
            Node::Compound { span, .. } => *span,
        }
    }
}

impl Node {
    /// The layout that a parser gives a tree of source text: each node's span
    /// is ordered and holds its children's, siblings come one after another,
    /// and a unary operator stands before its operand.
    pub open spec fn well_spanned(self) -> bool
        decreases self,
    {
        &&& self.span_of().lo <= self.span_of().hi
        &&& match self {
            Node::Ident { .. } => true,
            Node::Unary { span, arg, .. } => {
                &&& span.lo < arg.span_of().lo
                &&& arg.span_of().hi <= span.hi
                &&& arg.well_spanned()
            },
            Node::TypeAnnotation { span, children } => children_well_spanned(span, children@),
            Node::Compound { span, children, .. } => children_well_spanned(span, children@),
        }
    }
}

/// The nodes of `s` are well spanned, lie within `span`, and come one after
/// another.
pub open spec fn children_well_spanned(span: Span, s: Seq<Node>) -> bool
    decreases s,
{
    if s.len() == 0 {
        true
    } else {
        let init = s.subrange(0, s.len() - 1);
        let last = s[s.len() - 1];
        &&& children_well_spanned(span, init)
        &&& last.well_spanned()
        &&& span.lo <= last.span_of().lo
        &&& last.span_of().hi <= span.hi
        &&& init.len() > 0 ==> init[init.len() - 1].span_of().hi <= last.span_of().lo
    }
}

impl Program {
    pub open spec fn items(self) -> Seq<Node> {
        match self {
            Program::Module(b) => b@,
            Program::Script(b) => b@,
        }
    }
}

} // verus!
