//! The program representation the transformer rewrites. Nodes carry their
//! source range (`None` marks a synthetic node the pass itself created) and
//! their leading comments, which the hint scanner inspects. All children sit
//! in inductive lists and boxes, so specification functions can build and
//! take apart the very same values the executable pass does.

use vstd::prelude::*;
use crate::list::{List, Text};
use crate::range::SourceRange;

verus! {

/// Leading comments attached to a node, outermost first.
pub type Comments = List<Text>;

/// Binary operators. The three logical operators head a branch rule; the
/// rest are carried through untouched.
#[derive(Clone, Copy, PartialEq, Eq, Structural, Debug)]
pub enum BinOp {
    Or,
    And,
    Coalesce,
    Add,
    Sub,
    Lt,
    EqEq,
}

/// Variable-declaration kinds.
#[derive(Clone, Copy, PartialEq, Eq, Structural, Debug)]
pub enum DeclKind {
    Var,
    Let,
    Const,
}

/// An expression: a source range, leading comments, and the node itself.
#[derive(Debug, PartialEq, Eq)]
pub struct Expr {
    pub span: Option<SourceRange>,
    pub leading: Comments,
    pub kind: ExprKind,
}

#[derive(Debug, PartialEq, Eq)]
pub enum ExprKind {
    Ident(Text),
    Num(u64),
    Str(Text),
    This,
    Null,
    Not(Box<Expr>),
    Paren(Box<Expr>),
    /// A two-element sequence expression `(a, b)`.
    Comma(Box<Expr>, Box<Expr>),
    /// Postfix increment.
    Update(Box<Expr>),
    /// `obj.prop`.
    Member { obj: Box<Expr>, prop: Text },
    /// `obj[index]`.
    Index { obj: Box<Expr>, index: Box<Expr> },
    Call { callee: Box<Expr>, args: Box<List<Expr>> },
    Bin { op: BinOp, left: Box<Expr>, right: Box<Expr> },
    /// `test ? cons : alt`.
    Cond { test: Box<Expr>, cons: Box<Expr>, alt: Box<Expr> },
    Assign { target: Box<Expr>, value: Box<Expr> },
    Object(Box<List<Prop>>),
    Array(Box<List<Expr>>),
    Arrow { params: Box<List<Param>>, body: ArrowBody },
    FnExpr {
        name: Option<Text>,
        params: Box<List<Param>>,
        body_span: Option<SourceRange>,
        body: Box<List<Stmt>>,
    },
}

/// One property of an object literal.
#[derive(Debug, PartialEq, Eq)]
pub struct Prop {
    pub key: Text,
    pub value: Expr,
}

/// One function parameter, with an optional default expression.
#[derive(Debug, PartialEq, Eq)]
pub struct Param {
    pub span: Option<SourceRange>,
    pub name: Text,
    pub default: Option<Expr>,
}

/// The body of an arrow expression: a block, or a bare expression that the
/// pass promotes to a block.
#[derive(Debug, PartialEq, Eq)]
pub enum ArrowBody {
    Block { span: Option<SourceRange>, stmts: Box<List<Stmt>> },
    Expr(Box<Expr>),
}

/// A statement: a source range, leading comments, and the node itself.
#[derive(Debug, PartialEq, Eq)]
pub struct Stmt {
    pub span: Option<SourceRange>,
    pub leading: Comments,
    pub kind: StmtKind,
}

#[derive(Debug, PartialEq, Eq)]
pub enum StmtKind {
    Expr(Expr),
    VarDecl { kind: DeclKind, decls: List<Declarator> },
    Return(Option<Expr>),
    If { test: Expr, cons: Box<Stmt>, alt: Option<Box<Stmt>> },
    Block(Box<List<Stmt>>),
    While { test: Expr, body: Box<Stmt> },
    DoWhile { test: Expr, body: Box<Stmt> },
    For { init: Option<Box<Stmt>>, test: Option<Expr>, update: Option<Expr>, body: Box<Stmt> },
    FnDecl { name: Text, params: List<Param>, body_span: Option<SourceRange>, body: Box<List<Stmt>> },
    ClassDecl { name: Text, members: List<ClassMember> },
    Switch { disc: Expr, cases: List<SwitchCase> },
    Try {
        block: Box<List<Stmt>>,
        param: Option<Text>,
        handler: Option<Box<List<Stmt>>>,
        finalizer: Option<Box<List<Stmt>>>,
    },
    With { obj: Expr, body: Box<Stmt> },
    Throw(Expr),
    Labeled { label: Text, body: Box<Stmt> },
    Continue,
    Break,
    Debugger,
    Empty,
}

/// One member of a class body: a method or an instance property, with its
/// own range and leading comments.
#[derive(Debug, PartialEq, Eq)]
pub struct ClassMember {
    pub span: Option<SourceRange>,
    pub leading: Comments,
    pub name: Text,
    pub kind: MemberKind,
}

#[derive(Debug, PartialEq, Eq)]
pub enum MemberKind {
    Method { params: List<Param>, body_span: Option<SourceRange>, body: Box<List<Stmt>> },
    Prop { value: Option<Expr> },
    PrivateProp { value: Option<Expr> },
}

/// One declarator of a variable declaration.
#[derive(Debug, PartialEq, Eq)]
pub struct Declarator {
    pub name: Text,
    pub init: Option<Expr>,
}

/// One `case` (or `default`) clause of a `switch`.
#[derive(Debug, PartialEq, Eq)]
pub struct SwitchCase {
    pub span: Option<SourceRange>,
    pub test: Option<Expr>,
    pub body: Box<List<Stmt>>,
}

/// A synthetic expression: no source range, no comments.
pub open spec fn synth_expr(kind: ExprKind) -> Expr {
    Expr { span: None, leading: List::Nil, kind }
}

/// A synthetic statement: no source range, no comments.
pub open spec fn synth_stmt(kind: StmtKind) -> Stmt {
    Stmt { span: None, leading: List::Nil, kind }
}

/// Builds a synthetic expression.
pub fn mk_synth_expr(kind: ExprKind) -> (e: Expr)
    ensures
        e == synth_expr(kind),
{
    Expr { span: None, leading: List::Nil, kind }
}

/// Builds a synthetic statement.
pub fn mk_synth_stmt(kind: StmtKind) -> (s: Stmt)
    ensures
        s == synth_stmt(kind),
{
    Stmt { span: None, leading: List::Nil, kind }
}

} // verus!
