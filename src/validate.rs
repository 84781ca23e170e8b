//! The tree's well-formedness: every identifier has a symbol and every span
//! runs forward. The pass checks it on each module it produces, and proves
//! that it never breaks it.
use vstd::prelude::*;

use crate::ast::{
    ExportSpecifier, Expr, Function, Ident, ImportSpecifier, MemberProp, Module, ModuleItem, Prop,
    PropName, Span, Stmt,
};

verus! {

broadcast use vstd::std_specs::vec::group_vec_axioms;

pub open spec fn span_wf(s: Span) -> bool {
    s.lo <= s.hi
}

pub open spec fn ident_wf(i: Ident) -> bool {
    &&& i.sym@.len() > 0
    &&& span_wf(i.span)
}

pub open spec fn prop_name_wf(k: PropName) -> bool {
    match k {
        PropName::Ident(i) => ident_wf(i),
        _ => true,
    }
}

pub open spec fn member_prop_wf(m: MemberProp) -> bool
    decreases m,
{
    match m {
        MemberProp::Ident(i) => ident_wf(i),
        MemberProp::Computed(c) => expr_wf(*c),
    }
}

pub open spec fn prop_wf(pr: Prop) -> bool
    decreases pr,
{
    prop_name_wf(pr.key) && expr_wf(pr.value)
}

pub open spec fn expr_wf(e: Expr) -> bool
    decreases e,
{
    match e {
        Expr::Ident(i) => ident_wf(i),
        Expr::Num(_) => true,
        Expr::Str(_) => true,
        Expr::Unary { op, arg } => expr_wf(*arg),
        Expr::Bin { op, left, right } => expr_wf(*left) && expr_wf(*right),
        Expr::Assign { target, value } => expr_wf(*target) && expr_wf(*value),
        Expr::Member { obj, prop } => expr_wf(*obj) && member_prop_wf(prop),
        Expr::Call { callee, args } => {
            &&& expr_wf(*callee)
            &&& forall|k: int| 0 <= k < args.len() ==> expr_wf(#[trigger] args[k])
        },
        Expr::Object(props) => forall|k: int| 0 <= k < props.len() ==> prop_wf(#[trigger] props[k]),
    }
}

pub open spec fn function_wf(f: Function) -> bool
    decreases f,
{
    &&& ident_wf(f.ident)
    &&& forall|k: int| 0 <= k < f.params.len() ==> ident_wf(#[trigger] f.params[k])
    &&& forall|k: int| 0 <= k < f.body.len() ==> stmt_wf(#[trigger] f.body[k])
}

pub open spec fn stmt_wf(s: Stmt) -> bool
    decreases s,
{
    match s {
        Stmt::Expr(e) => expr_wf(e),
        Stmt::Var { name, init } => {
            &&& ident_wf(name)
            &&& match init {
                None => true,
                Some(x) => expr_wf(x),
            }
        },
        Stmt::Return(v) => match v {
            None => true,
            Some(x) => expr_wf(x),
        },
        Stmt::If { test, cons, alt } => {
            &&& expr_wf(test)
            &&& stmt_wf(*cons)
            &&& match alt {
                None => true,
                Some(a) => stmt_wf(*a),
            }
        },
        Stmt::Block(ss) => forall|k: int| 0 <= k < ss.len() ==> stmt_wf(#[trigger] ss[k]),
        Stmt::Fn(f) => function_wf(f),
    }
}

pub open spec fn import_specifier_wf(s: ImportSpecifier) -> bool {
    match s {
        ImportSpecifier::Aliased { local, imported } => ident_wf(local) && ident_wf(imported),
        ImportSpecifier::Direct { name } => ident_wf(name),
    }
}

pub open spec fn export_specifier_wf(s: ExportSpecifier) -> bool {
    &&& ident_wf(s.orig)
    &&& match s.exported {
        None => true,
        Some(x) => ident_wf(x),
    }
}

pub open spec fn module_item_wf(it: ModuleItem) -> bool {
    match it {
        ModuleItem::Import { specifiers, src } => forall|k: int|
            0 <= k < specifiers.len() ==> import_specifier_wf(#[trigger] specifiers[k]),
        ModuleItem::Export { specifiers, src } => forall|k: int|
            0 <= k < specifiers.len() ==> export_specifier_wf(#[trigger] specifiers[k]),
        ModuleItem::Stmt(s) => stmt_wf(s),
    }
}

pub open spec fn module_wf(m: Module) -> bool {
    &&& span_wf(m.span)
    &&& forall|k: int| 0 <= k < m.body.len() ==> module_item_wf(#[trigger] m.body[k])
}

fn check_ident(i: &Ident) -> (r: bool)
    ensures
        r == ident_wf(*i),
{
    i.sym.as_str().unicode_len() > 0 && i.span.lo <= i.span.hi
}

fn check_expr(e: &Expr) -> (r: bool)
    ensures
        r == expr_wf(*e),
    decreases e,
{
    match e {
        Expr::Ident(i) => check_ident(i),
        Expr::Num(_) => true,
        Expr::Str(_) => true,
        Expr::Unary { op, arg } => check_expr(arg),
        Expr::Bin { op, left, right } => check_expr(left) && check_expr(right),
        Expr::Assign { target, value } => check_expr(target) && check_expr(value),
        Expr::Member { obj, prop } => check_expr(obj) && check_member_prop(prop),
        Expr::Call { callee, args } => check_expr(callee) && check_exprs(args),
        Expr::Object(props) => check_props(props),
    }
}

fn check_member_prop(prop: &MemberProp) -> (r: bool)
    ensures
        r == member_prop_wf(*prop),
    decreases prop,
{
    match prop {
        MemberProp::Ident(i) => check_ident(i),
        MemberProp::Computed(c) => check_expr(c),
    }
}

fn check_exprs(es: &Vec<Expr>) -> (r: bool)
    ensures
        r == forall|k: int| 0 <= k < es.len() ==> expr_wf(#[trigger] es[k]),
    decreases es,
{
    let mut k: usize = 0;
    while k < es.len()
        invariant
            k <= es.len(),
            forall|j: int| 0 <= j < k ==> expr_wf(#[trigger] es[j]),
        decreases es.len() - k,
    {
        if !check_expr(&es[k]) {
            assert(!expr_wf(es[k as int]));
            return false;
        }
        k = k + 1;
    }
    true
}

fn check_prop(pr: &Prop) -> (r: bool)
    ensures
        r == prop_wf(*pr),
    decreases pr,
{
    let ok = match &pr.key {
        PropName::Ident(i) => check_ident(i),
        _ => true,
    };
    ok && check_expr(&pr.value)
}

fn check_props(ps: &Vec<Prop>) -> (r: bool)
    ensures
        r == forall|k: int| 0 <= k < ps.len() ==> prop_wf(#[trigger] ps[k]),
    decreases ps,
{
    let mut k: usize = 0;
    while k < ps.len()
        invariant
            k <= ps.len(),
            forall|j: int| 0 <= j < k ==> prop_wf(#[trigger] ps[j]),
        decreases ps.len() - k,
    {
        if !check_prop(&ps[k]) {
            assert(!prop_wf(ps[k as int]));
            return false;
        }
        k = k + 1;
    }
    true
}

fn check_function(f: &Function) -> (r: bool)
    ensures
        r == function_wf(*f),
    decreases f,
{
    if !check_ident(&f.ident) {
        return false;
    }
    let mut k: usize = 0;
    while k < f.params.len()
        invariant
            k <= f.params.len(),
            forall|j: int| 0 <= j < k ==> ident_wf(#[trigger] f.params[j]),
        decreases f.params.len() - k,
    {
        if !check_ident(&f.params[k]) {
            assert(!ident_wf(f.params[k as int]));
            return false;
        }
        k = k + 1;
    }
    check_stmts(&f.body)
}

fn check_stmts(ss: &Vec<Stmt>) -> (r: bool)
    ensures
        r == forall|k: int| 0 <= k < ss.len() ==> stmt_wf(#[trigger] ss[k]),
    decreases ss,
{
    let mut k: usize = 0;
    while k < ss.len()
        invariant
            k <= ss.len(),
            forall|j: int| 0 <= j < k ==> stmt_wf(#[trigger] ss[j]),
        decreases ss.len() - k,
    {
        if !check_stmt(&ss[k]) {
            assert(!stmt_wf(ss[k as int]));
            return false;
        }
        k = k + 1;
    }
    true
}

fn check_stmt(s: &Stmt) -> (r: bool)
    ensures
        r == stmt_wf(*s),
    decreases s,
{
    match s {
        Stmt::Expr(e) => check_expr(e),
        Stmt::Var { name, init } => {
            check_ident(name) && match init {
                None => true,
                Some(x) => check_expr(x),
            }
        },
        Stmt::Return(v) => match v {
            None => true,
            Some(x) => check_expr(x),
        },
        Stmt::If { test, cons, alt } => {
            check_expr(test) && check_stmt(cons) && match alt {
                None => true,
                Some(a) => check_stmt(a),
            }
        },
        Stmt::Block(ss) => check_stmts(ss),
        Stmt::Fn(f) => check_function(f),
    }
}

fn check_import_specifiers(ss: &Vec<ImportSpecifier>) -> (r: bool)
    ensures
        r == forall|k: int| 0 <= k < ss.len() ==> import_specifier_wf(#[trigger] ss[k]),
{
    let mut k: usize = 0;
    while k < ss.len()
        invariant
            k <= ss.len(),
            forall|j: int| 0 <= j < k ==> import_specifier_wf(#[trigger] ss[j]),
        decreases ss.len() - k,
    {
        let ok = match &ss[k] {
            ImportSpecifier::Aliased { local, imported } => check_ident(local) && check_ident(
                imported,
            ),
            ImportSpecifier::Direct { name } => check_ident(name),
        };
        if !ok {
            assert(!import_specifier_wf(ss[k as int]));
            return false;
        }
        k = k + 1;
    }
    true
}

fn check_export_specifiers(ss: &Vec<ExportSpecifier>) -> (r: bool)
    ensures
        r == forall|k: int| 0 <= k < ss.len() ==> export_specifier_wf(#[trigger] ss[k]),
{
    let mut k: usize = 0;
    while k < ss.len()
        invariant
            k <= ss.len(),
            forall|j: int| 0 <= j < k ==> export_specifier_wf(#[trigger] ss[j]),
        decreases ss.len() - k,
    {
        let ok = check_ident(&ss[k].orig) && match &ss[k].exported {
            None => true,
            Some(x) => check_ident(x),
        };
        if !ok {
            assert(!export_specifier_wf(ss[k as int]));
            return false;
        }
        k = k + 1;
    }
    true
}

fn check_module_item(it: &ModuleItem) -> (r: bool)
    ensures
        r == module_item_wf(*it),
{
    match it {
        ModuleItem::Import { specifiers, src } => check_import_specifiers(specifiers),
        ModuleItem::Export { specifiers, src } => check_export_specifiers(specifiers),
        ModuleItem::Stmt(s) => check_stmt(s),
    }
}

/// The post-check: whether `m` is well formed.
pub fn check_module(m: &Module) -> (r: bool)
    ensures
        r == module_wf(*m),
{
    if m.span.lo > m.span.hi {
        return false;
    }
    let mut k: usize = 0;
    while k < m.body.len()
        invariant
            k <= m.body.len(),
            forall|j: int| 0 <= j < k ==> module_item_wf(#[trigger] m.body[j]),
        decreases m.body.len() - k,
    {
        if !check_module_item(&m.body[k]) {
            assert(!module_item_wf(m.body[k as int]));
            return false;
        }
        k = k + 1;
    }
    true
}

} // verus!
