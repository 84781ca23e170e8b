//! What it means for one tree to be the pass's rewrite of another: every
//! binding or reference goes through the rename decision, and the names that
//! surface syntax fixes (property keys, non-computed member names, export
//! specifiers, the imported name of an import specifier, and both names of an
//! unaliased one) are kept as written. Nothing else changes.
use vstd::prelude::*;

use crate::ast::{
    ExportSpecifier, Expr, Function, ImportSpecifier, MemberProp, Module, ModuleItem, Prop,
    PropName, Stmt,
};
use crate::decision::{ident_renamed, ident_same};

verus! {

broadcast use vstd::std_specs::vec::group_vec_axioms;

pub open spec fn prop_name_same(k: PropName, r: PropName) -> bool {
    match k {
        PropName::Ident(i) => r is Ident && ident_same(i, r->Ident_0),
        PropName::Str(s) => r is Str && r->Str_0@ == s@,
        PropName::Num(n) => r == PropName::Num(n),
    }
}

pub open spec fn prop_renamed(p: bool, pr: Prop, r: Prop) -> bool
    decreases pr,
{
    &&& prop_name_same(pr.key, r.key)
    &&& expr_renamed(p, pr.value, r.value)
}

pub open spec fn expr_renamed(p: bool, e: Expr, r: Expr) -> bool
    decreases e,
{
    match e {
        Expr::Ident(i) => r is Ident && ident_renamed(p, i, r->Ident_0),
        Expr::Num(n) => r == Expr::Num(n),
        Expr::Str(s) => r is Str && r->Str_0@ == s@,
        Expr::Unary { op, arg } => {
            &&& r is Unary
            &&& r->Unary_op == op
            &&& expr_renamed(p, *arg, *r->Unary_arg)
        },
        Expr::Bin { op, left, right } => {
            &&& r is Bin
            &&& r->Bin_op == op
            &&& expr_renamed(p, *left, *r->left)
            &&& expr_renamed(p, *right, *r->right)
        },
        Expr::Assign { target, value } => {
            &&& r is Assign
            &&& expr_renamed(p, *target, *r->target)
            &&& expr_renamed(p, *value, *r->value)
        },
        Expr::Member { obj, prop } => {
            &&& r is Member
            &&& expr_renamed(p, *obj, *r->obj)
            &&& match prop {
                MemberProp::Ident(i) => r->prop is Ident && ident_same(i, r->prop->Ident_0),
                MemberProp::Computed(c) => r->prop is Computed && expr_renamed(
                    p,
                    *c,
                    *r->prop->Computed_0,
                ),
            }
        },
        Expr::Call { callee, args } => {
            &&& r is Call
            &&& expr_renamed(p, *callee, *r->callee)
            &&& r->args.len() == args.len()
            &&& forall|k: int| 0 <= k < args.len() ==> expr_renamed(p, args[k], #[trigger] r->args[k])
        },
        Expr::Object(props) => {
            &&& r is Object
            &&& r->Object_0.len() == props.len()
            &&& forall|k: int|
                0 <= k < props.len() ==> prop_renamed(p, props[k], #[trigger] r->Object_0[k])
        },
    }
}

pub open spec fn function_renamed(p: bool, f: Function, r: Function) -> bool
    decreases f,
{
    &&& ident_renamed(p, f.ident, r.ident)
    &&& r.params.len() == f.params.len()
    &&& forall|k: int| 0 <= k < f.params.len() ==> ident_renamed(p, f.params[k], #[trigger] r.params[k])
    &&& r.body.len() == f.body.len()
    &&& forall|k: int| 0 <= k < f.body.len() ==> stmt_renamed(p, f.body[k], #[trigger] r.body[k])
}

pub open spec fn stmt_renamed(p: bool, s: Stmt, r: Stmt) -> bool
    decreases s,
{
    match s {
        Stmt::Expr(e) => r is Expr && expr_renamed(p, e, r->Expr_0),
        Stmt::Var { name, init } => {
            &&& r is Var
            &&& ident_renamed(p, name, r->name)
            &&& match init {
                None => r->init is None,
                Some(x) => r->init is Some && expr_renamed(p, x, r->init->0),
            }
        },
        Stmt::Return(v) => {
            &&& r is Return
            &&& match v {
                None => r->Return_0 is None,
                Some(x) => r->Return_0 is Some && expr_renamed(p, x, r->Return_0->0),
            }
        },
        Stmt::If { test, cons, alt } => {
            &&& r is If
            &&& expr_renamed(p, test, r->test)
            &&& stmt_renamed(p, *cons, *r->cons)
            &&& match alt {
                None => r->alt is None,
                Some(a) => r->alt is Some && stmt_renamed(p, *a, *r->alt->0),
            }
        },
        Stmt::Block(ss) => {
            &&& r is Block
            &&& r->Block_0.len() == ss.len()
            &&& forall|k: int| 0 <= k < ss.len() ==> stmt_renamed(p, ss[k], #[trigger] r->Block_0[k])
        },
        Stmt::Fn(f) => r is Fn && function_renamed(p, f, r->Fn_0),
    }
}

pub open spec fn import_specifier_renamed(p: bool, s: ImportSpecifier, r: ImportSpecifier) -> bool {
    match s {
        ImportSpecifier::Aliased { local, imported } => {
            &&& r is Aliased
            &&& ident_renamed(p, local, r->local)
            &&& ident_same(imported, r->imported)
        },
        ImportSpecifier::Direct { name } => r is Direct && ident_same(name, r->name),
    }
}

pub open spec fn export_specifier_same(s: ExportSpecifier, r: ExportSpecifier) -> bool {
    &&& ident_same(s.orig, r.orig)
    &&& match s.exported {
        None => r.exported is None,
        Some(x) => r.exported is Some && ident_same(x, r.exported->0),
    }
}

pub open spec fn module_item_renamed(p: bool, it: ModuleItem, r: ModuleItem) -> bool {
    match it {
        ModuleItem::Import { specifiers, src } => {
            &&& r is Import
            &&& r->Import_src@ == src@
            &&& r->Import_specifiers.len() == specifiers.len()
            &&& forall|k: int|
                0 <= k < specifiers.len() ==> import_specifier_renamed(
                    p,
                    specifiers[k],
                    #[trigger] r->Import_specifiers[k],
                )
        },
        ModuleItem::Export { specifiers, src } => {
            &&& r is Export
            &&& match src {
                None => r->Export_src is None,
                Some(x) => r->Export_src is Some && r->Export_src->0@ == x@,
            }
            &&& r->Export_specifiers.len() == specifiers.len()
            &&& forall|k: int|
                0 <= k < specifiers.len() ==> export_specifier_same(
                    specifiers[k],
                    #[trigger] r->Export_specifiers[k],
                )
        },
        ModuleItem::Stmt(s) => r is Stmt && stmt_renamed(p, s, r->Stmt_0),
    }
}

pub open spec fn module_renamed(p: bool, m: Module, r: Module) -> bool {
    &&& r.span == m.span
    &&& r.body.len() == m.body.len()
    &&& forall|k: int| 0 <= k < m.body.len() ==> module_item_renamed(p, m.body[k], #[trigger] r.body[k])
}

} // verus!
