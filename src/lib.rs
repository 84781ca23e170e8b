//! Renames identifiers that ES3 reserved as future keywords, so that code
//! written for later editions can run where ES3's reserved-word set is enforced.
//!
//! The syntax tree is modelled in [`ast`]; the rename decision and the
//! reserved-word set live in [`decision`]; [`renamed`] says what it means for
//! one tree to be the rewrite of another; the traversal, with its per-context
//! rules, is [`ReservedWord`] in [`reserved_word`]; [`validate`] holds the
//! module post-check; [`laws`] states and proves what holds of the pass as a
//! whole.
pub mod ast;
pub mod decision;
pub mod laws;
pub mod renamed;
pub mod reserved_word;
pub mod validate;

pub use ast::{
    BinaryOp, ExportSpecifier, Expr, Function, Ident, ImportSpecifier, MemberProp, Module,
    ModuleItem, Prop, PropName, Span, Stmt, UnaryOp,
};
pub use reserved_word::ReservedWord;
