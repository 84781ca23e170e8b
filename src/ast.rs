//! The syntax tree that the pass rewrites: a closed set of node kinds, with
//! the contexts that decide whether an identifier is a binding or reference
//! (which the pass may rename) or a name fixed by surface syntax (which it
//! never renames).
use vstd::prelude::*;

verus! {

/// Where a node stands in the source, and the scope mark its identifier
/// carries; the pass never reads it and never changes it.
#[derive(Clone, Copy, PartialEq, Eq, Structural, Debug)]
pub struct Span {
    pub lo: u32,
    pub hi: u32,
    pub ctxt: u32,
}

/// An identifier occurrence: a symbol and its span.
#[derive(Clone, PartialEq, Eq, Debug)]
pub struct Ident {
    pub sym: String,
    pub span: Span,
}

#[derive(Clone, Copy, PartialEq, Eq, Structural, Debug)]
pub enum UnaryOp {
    Minus,
    Plus,
    Not,
    Tilde,
    TypeOf,
    Void,
}

#[derive(Clone, Copy, PartialEq, Eq, Structural, Debug)]
pub enum BinaryOp {
    Add,
    Sub,
    Mul,
    Div,
    Mod,
    Lt,
    LtEq,
    Gt,
    GtEq,
    EqEq,
    NotEq,
    EqEqEq,
    NotEqEq,
    LShift,
    RShift,
    ZeroFillRShift,
    BitAnd,
    BitOr,
    BitXor,
    LogicalAnd,
    LogicalOr,
    In,
    InstanceOf,
}

/// The key of an object-literal member.
#[derive(PartialEq, Eq, Debug)]
pub enum PropName {
    Ident(Ident),
    Str(String),
    Num(u64),
}

/// What follows the object of a member access: `.name`, or `[expr]`.
#[derive(PartialEq, Eq, Debug)]
pub enum MemberProp {
    Ident(Ident),
    Computed(Box<Expr>),
}

/// An object-literal member `key: value`.
#[derive(PartialEq, Eq, Debug)]
pub struct Prop {
    pub key: PropName,
    pub value: Expr,
}

#[derive(PartialEq, Eq, Debug)]
pub enum Expr {
    Ident(Ident),
    Num(u64),
    Str(String),
    Unary { op: UnaryOp, arg: Box<Expr> },
    Bin { op: BinaryOp, left: Box<Expr>, right: Box<Expr> },
    Assign { target: Box<Expr>, value: Box<Expr> },
    Member { obj: Box<Expr>, prop: MemberProp },
    Call { callee: Box<Expr>, args: Vec<Expr> },
    Object(Vec<Prop>),
}

/// A function declaration: its name, its parameters and its body.
#[derive(PartialEq, Eq, Debug)]
pub struct Function {
    pub ident: Ident,
    pub params: Vec<Ident>,
    pub body: Vec<Stmt>,
}

#[derive(PartialEq, Eq, Debug)]
pub enum Stmt {
    Expr(Expr),
    Var { name: Ident, init: Option<Expr> },
    Return(Option<Expr>),
    If { test: Expr, cons: Box<Stmt>, alt: Option<Box<Stmt>> },
    Block(Vec<Stmt>),
    Fn(Function),
}

/// One named import: `{ imported as local }` or `{ name }`.
#[derive(PartialEq, Eq, Debug)]
pub enum ImportSpecifier {
    Aliased { local: Ident, imported: Ident },
    Direct { name: Ident },
}

/// One named export: `orig`, or `orig as exported`.
#[derive(PartialEq, Eq, Debug)]
pub struct ExportSpecifier {
    pub orig: Ident,
    pub exported: Option<Ident>,
}

#[derive(PartialEq, Eq, Debug)]
pub enum ModuleItem {
    Import { specifiers: Vec<ImportSpecifier>, src: String },
    Export { specifiers: Vec<ExportSpecifier>, src: Option<String> },
    Stmt(Stmt),
}

#[derive(PartialEq, Eq, Debug)]
pub struct Module {
    pub body: Vec<ModuleItem>,
    pub span: Span,
}

} // verus!
