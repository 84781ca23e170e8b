//! What holds of the pass as a whole, stated over the rewrite relation that
//! every fold method of [`crate::ReservedWord`] establishes.
use vstd::prelude::*;

use crate::ast::{ExportSpecifier, Expr, Ident, ImportSpecifier, MemberProp, Module, ModuleItem, Prop, Stmt, Function};
use crate::decision::{es3_reserved_word, lemma_reserved_word_shape, ident_renamed, ident_same, prefixed, renamed_sym};
use crate::validate::{
    export_specifier_wf, expr_wf, function_wf, member_prop_wf, ident_wf, import_specifier_wf, module_item_wf,
    module_wf, prop_wf, stmt_wf,
};
use crate::renamed::{
    export_specifier_same, expr_renamed, function_renamed, import_specifier_renamed,
    module_item_renamed, module_renamed, prop_name_same, prop_renamed, stmt_renamed,
};

verus! {

broadcast use vstd::std_specs::vec::group_vec_axioms;

/// An identifier whose symbol is not reserved (and that is not `import`
/// exempted by `preserve_import`) comes out with its symbol unchanged,
/// whatever context it stands in.
pub proof fn lemma_unreserved_kept(preserve_import: bool, i: Ident, r: Ident)
    requires
        !es3_reserved_word(i.sym@),
        !(preserve_import && i.sym@ == "import"@),
        ident_renamed(preserve_import, i, r) || ident_same(i, r),
    ensures
        r.sym@ == i.sym@,
        renamed_sym(preserve_import, i.sym@) == i.sym@,
{
}

/// A reserved identifier in a binding or reference position comes out as
/// `_` followed by its symbol.
pub proof fn lemma_reserved_prefixed(preserve_import: bool, i: Ident, r: Ident)
    requires
        es3_reserved_word(i.sym@),
        ident_renamed(preserve_import, i, r),
    ensures
        r.sym@ == prefixed(i.sym@),
        r.span == i.span,
{
    lemma_reserved_word_shape(i.sym@);
}

/// Object-literal keys are never renamed.
pub proof fn lemma_prop_key_kept(preserve_import: bool, pr: Prop, r: Prop)
    requires
        prop_renamed(preserve_import, pr, r),
    ensures
        prop_name_same(pr.key, r.key),
{
}

/// Export specifiers are never renamed, on either side of `as`.
pub proof fn lemma_export_specifiers_kept(
    preserve_import: bool,
    specifiers: Vec<ExportSpecifier>,
    src: Option<String>,
    r: ModuleItem,
)
    requires
        module_item_renamed(preserve_import, ModuleItem::Export { specifiers, src }, r),
    ensures
        r is Export,
        r->Export_specifiers.len() == specifiers.len(),
        forall|k: int|
            0 <= k < specifiers.len() ==> #[trigger] ident_same(
                specifiers[k].orig,
                r->Export_specifiers[k].orig,
            ),
        forall|k: int|
            0 <= k < specifiers.len() && (#[trigger] specifiers[k]).exported is Some ==> {
                &&& r->Export_specifiers[k].exported is Some
                &&& ident_same(specifiers[k].exported->0, r->Export_specifiers[k].exported->0)
            },
{
    assert forall|k: int| 0 <= k < specifiers.len() implies #[trigger] ident_same(
        specifiers[k].orig,
        r->Export_specifiers[k].orig,
    ) by {
        assert(export_specifier_same(specifiers[k], r->Export_specifiers[k]));
    }
    assert forall|k: int| 0 <= k < specifiers.len() && (#[trigger] specifiers[k]).exported is Some implies {
        &&& r->Export_specifiers[k].exported is Some
        &&& ident_same(specifiers[k].exported->0, r->Export_specifiers[k].exported->0)
    } by {
        assert(export_specifier_same(specifiers[k], r->Export_specifiers[k]));
    }
}

/// `obj.name` keeps `name` as written; in `obj[e]` the key `e` is rewritten
/// like any expression, so a reserved identifier there gets its `_`.
pub proof fn lemma_member_prop(preserve_import: bool, obj: Box<Expr>, prop: MemberProp, r: Expr)
    requires
        expr_renamed(preserve_import, Expr::Member { obj, prop }, r),
    ensures
        r is Member,
        expr_renamed(preserve_import, *obj, *r->obj),
        prop is Ident ==> r->prop is Ident && ident_same(prop->Ident_0, r->prop->Ident_0),
        prop is Computed ==> r->prop is Computed && expr_renamed(
            preserve_import,
            *prop->Computed_0,
            *r->prop->Computed_0,
        ),
        prop is Computed && *prop->Computed_0 is Ident && es3_reserved_word(
            (*prop->Computed_0)->Ident_0.sym@,
        ) ==> {
            &&& *r->prop->Computed_0 is Ident
            &&& (*r->prop->Computed_0)->Ident_0.sym@ == prefixed((*prop->Computed_0)->Ident_0.sym@)
        },
{
    if prop is Computed && *prop->Computed_0 is Ident {
        let i = (*prop->Computed_0)->Ident_0;
        lemma_reserved_word_shape(i.sym@);
        assert(expr_renamed(preserve_import, *prop->Computed_0, *r->prop->Computed_0));
        assert(ident_renamed(preserve_import, i, (*r->prop->Computed_0)->Ident_0));
    }
}

/// An aliased import renames only its local binding; the imported name is
/// kept as written.
pub proof fn lemma_aliased_import(preserve_import: bool, local: Ident, imported: Ident, r: ImportSpecifier)
    requires
        import_specifier_renamed(preserve_import, ImportSpecifier::Aliased { local, imported }, r),
    ensures
        r is Aliased,
        ident_renamed(preserve_import, local, r->local),
        es3_reserved_word(local.sym@) ==> r->local.sym@ == prefixed(local.sym@),
        ident_same(imported, r->imported),
{
    lemma_reserved_word_shape(local.sym@);
}

/// An unaliased import is kept as written, even when its name is reserved.
pub proof fn lemma_direct_import(preserve_import: bool, name: Ident, r: ImportSpecifier)
    requires
        import_specifier_renamed(preserve_import, ImportSpecifier::Direct { name }, r),
    ensures
        r is Direct,
        ident_same(name, r->name),
{
}

/// The rename decision is idempotent: a renamed symbol starts with `_` and
/// so is neither reserved nor `import`.
pub proof fn lemma_renamed_sym_idempotent(preserve_import: bool, s: Seq<char>)
    ensures
        renamed_sym(preserve_import, renamed_sym(preserve_import, s)) == renamed_sym(preserve_import, s),
{
    lemma_reserved_word_shape(s);
    lemma_reserved_word_shape(prefixed(s));
    reveal_strlit("import");
    assert(prefixed(s)[0] == '_');
    if es3_reserved_word(prefixed(s)) {
        assert(prefixed(s)[0] != '_');
    }
}

proof fn lemma_ident_twice(p: bool, i: Ident, r: Ident, r2: Ident)
    requires
        ident_renamed(p, i, r),
        ident_renamed(p, r, r2),
    ensures
        ident_renamed(p, i, r2),
{
    lemma_renamed_sym_idempotent(p, i.sym@);
}

proof fn lemma_expr_twice(p: bool, e: Expr, r: Expr, r2: Expr)
    requires
        expr_renamed(p, e, r),
        expr_renamed(p, r, r2),
    ensures
        expr_renamed(p, e, r2),
    decreases e,
{
    match e {
        Expr::Ident(i) => lemma_ident_twice(p, i, r->Ident_0, r2->Ident_0),
        Expr::Num(_) => {},
        Expr::Str(_) => {},
        Expr::Unary { op, arg } => lemma_expr_twice(p, *arg, *r->Unary_arg, *r2->Unary_arg),
        Expr::Bin { op, left, right } => {
            lemma_expr_twice(p, *left, *r->left, *r2->left);
            lemma_expr_twice(p, *right, *r->right, *r2->right);
        },
        Expr::Assign { target, value } => {
            lemma_expr_twice(p, *target, *r->target, *r2->target);
            lemma_expr_twice(p, *value, *r->value, *r2->value);
        },
        Expr::Member { obj, prop } => {
            lemma_expr_twice(p, *obj, *r->obj, *r2->obj);
            match prop {
                MemberProp::Ident(_) => {},
                MemberProp::Computed(c) => lemma_expr_twice(
                    p,
                    *c,
                    *r->prop->Computed_0,
                    *r2->prop->Computed_0,
                ),
            }
        },
        Expr::Call { callee, args } => {
            lemma_expr_twice(p, *callee, *r->callee, *r2->callee);
            assert forall|k: int| 0 <= k < args.len() implies expr_renamed(
                p,
                args[k],
                #[trigger] r2->args[k],
            ) by {
                lemma_expr_twice(p, args[k], r->args[k], r2->args[k]);
            }
        },
        Expr::Object(props) => {
            assert forall|k: int| 0 <= k < props.len() implies prop_renamed(
                p,
                props[k],
                #[trigger] r2->Object_0[k],
            ) by {
                lemma_prop_twice(p, props[k], r->Object_0[k], r2->Object_0[k]);
            }
        },
    }
}

proof fn lemma_prop_twice(p: bool, pr: Prop, r: Prop, r2: Prop)
    requires
        prop_renamed(p, pr, r),
        prop_renamed(p, r, r2),
    ensures
        prop_renamed(p, pr, r2),
    decreases pr,
{
    lemma_expr_twice(p, pr.value, r.value, r2.value);
}

proof fn lemma_stmt_twice(p: bool, s: Stmt, r: Stmt, r2: Stmt)
    requires
        stmt_renamed(p, s, r),
        stmt_renamed(p, r, r2),
    ensures
        stmt_renamed(p, s, r2),
    decreases s,
{
    match s {
        Stmt::Expr(e) => lemma_expr_twice(p, e, r->Expr_0, r2->Expr_0),
        Stmt::Var { name, init } => {
            lemma_ident_twice(p, name, r->name, r2->name);
            match init {
                None => {},
                Some(x) => lemma_expr_twice(p, x, r->init->0, r2->init->0),
            }
        },
        Stmt::Return(v) => {
            match v {
                None => {},
                Some(x) => lemma_expr_twice(p, x, r->Return_0->0, r2->Return_0->0),
            }
        },
        Stmt::If { test, cons, alt } => {
            lemma_expr_twice(p, test, r->test, r2->test);
            lemma_stmt_twice(p, *cons, *r->cons, *r2->cons);
            match alt {
                None => {},
                Some(a) => lemma_stmt_twice(p, *a, *r->alt->0, *r2->alt->0),
            }
        },
        Stmt::Block(ss) => {
            assert forall|k: int| 0 <= k < ss.len() implies stmt_renamed(
                p,
                ss[k],
                #[trigger] r2->Block_0[k],
            ) by {
                lemma_stmt_twice(p, ss[k], r->Block_0[k], r2->Block_0[k]);
            }
        },
        Stmt::Fn(f) => lemma_function_twice(p, f, r->Fn_0, r2->Fn_0),
    }
}

proof fn lemma_function_twice(p: bool, f: Function, r: Function, r2: Function)
    requires
        function_renamed(p, f, r),
        function_renamed(p, r, r2),
    ensures
        function_renamed(p, f, r2),
    decreases f,
{
    lemma_ident_twice(p, f.ident, r.ident, r2.ident);
    assert forall|k: int| 0 <= k < f.params.len() implies ident_renamed(
        p,
        f.params[k],
        #[trigger] r2.params[k],
    ) by {
        lemma_ident_twice(p, f.params[k], r.params[k], r2.params[k]);
    }
    assert forall|k: int| 0 <= k < f.body.len() implies stmt_renamed(
        p,
        f.body[k],
        #[trigger] r2.body[k],
    ) by {
        lemma_stmt_twice(p, f.body[k], r.body[k], r2.body[k]);
    }
}

proof fn lemma_module_item_twice(p: bool, it: ModuleItem, r: ModuleItem, r2: ModuleItem)
    requires
        module_item_renamed(p, it, r),
        module_item_renamed(p, r, r2),
    ensures
        module_item_renamed(p, it, r2),
{
    match it {
        ModuleItem::Import { specifiers, src } => {
            assert forall|k: int| 0 <= k < specifiers.len() implies import_specifier_renamed(
                p,
                specifiers[k],
                #[trigger] r2->Import_specifiers[k],
            ) by {
                let s = specifiers[k];
                let s1 = r->Import_specifiers[k];
                let s2 = r2->Import_specifiers[k];
                assert(import_specifier_renamed(p, s, s1));
                assert(import_specifier_renamed(p, s1, s2));
                if s is Aliased {
                    lemma_ident_twice(p, s->local, s1->local, s2->local);
                }
            }
        },
        ModuleItem::Export { specifiers, src } => {
            assert forall|k: int| 0 <= k < specifiers.len() implies export_specifier_same(
                specifiers[k],
                #[trigger] r2->Export_specifiers[k],
            ) by {
                assert(export_specifier_same(specifiers[k], r->Export_specifiers[k]));
                assert(export_specifier_same(r->Export_specifiers[k], r2->Export_specifiers[k]));
            }
        },
        ModuleItem::Stmt(s) => lemma_stmt_twice(p, s, r->Stmt_0, r2->Stmt_0),
    }
}

/// Running the pass on its own output changes nothing: the second result is
/// again exactly the rewrite of the original module, since a renamed symbol
/// starts with `_` and no reserved word does.
pub proof fn lemma_pass_idempotent(preserve_import: bool, m: Module, r: Module, r2: Module)
    requires
        module_renamed(preserve_import, m, r),
        module_renamed(preserve_import, r, r2),
    ensures
        module_renamed(preserve_import, m, r2),
{
    assert forall|k: int| 0 <= k < m.body.len() implies module_item_renamed(
        preserve_import,
        m.body[k],
        #[trigger] r2.body[k],
    ) by {
        lemma_module_item_twice(preserve_import, m.body[k], r.body[k], r2.body[k]);
    }
}

proof fn lemma_ident_wf_kept(p: bool, i: Ident, r: Ident)
    requires
        ident_renamed(p, i, r) || ident_same(i, r),
    ensures
        ident_wf(i) == ident_wf(r),
{
    lemma_reserved_word_shape(i.sym@);
}

proof fn lemma_expr_wf_kept(p: bool, e: Expr, r: Expr)
    requires
        expr_renamed(p, e, r),
    ensures
        expr_wf(e) == expr_wf(r),
    decreases e,
{
    match e {
        Expr::Ident(i) => lemma_ident_wf_kept(p, i, r->Ident_0),
        Expr::Num(_) => {},
        Expr::Str(_) => {},
        Expr::Unary { op, arg } => lemma_expr_wf_kept(p, *arg, *r->Unary_arg),
        Expr::Bin { op, left, right } => {
            lemma_expr_wf_kept(p, *left, *r->left);
            lemma_expr_wf_kept(p, *right, *r->right);
        },
        Expr::Assign { target, value } => {
            lemma_expr_wf_kept(p, *target, *r->target);
            lemma_expr_wf_kept(p, *value, *r->value);
        },
        Expr::Member { obj, prop } => {
            lemma_expr_wf_kept(p, *obj, *r->obj);
            match prop {
                MemberProp::Ident(i) => lemma_ident_wf_kept(p, i, r->prop->Ident_0),
                MemberProp::Computed(c) => lemma_expr_wf_kept(p, *c, *r->prop->Computed_0),
            }
            assert(member_prop_wf(prop) == member_prop_wf(r->prop));
        },
        Expr::Call { callee, args } => {
            lemma_expr_wf_kept(p, *callee, *r->callee);
            lemma_exprs_wf_kept(p, args, r->args);
        },
        Expr::Object(props) => lemma_props_wf_kept(p, props, r->Object_0),
    }
}

proof fn lemma_exprs_wf_kept(p: bool, es: Vec<Expr>, rs: Vec<Expr>)
    requires
        rs.len() == es.len(),
        forall|k: int| 0 <= k < es.len() ==> expr_renamed(p, es[k], #[trigger] rs[k]),
    ensures
        (forall|k: int| 0 <= k < es.len() ==> expr_wf(#[trigger] es[k])) == (forall|k: int|
            0 <= k < rs.len() ==> expr_wf(#[trigger] rs[k])),
    decreases es,
{
    if forall|k: int| 0 <= k < es.len() ==> expr_wf(#[trigger] es[k]) {
        assert forall|k: int| 0 <= k < rs.len() implies expr_wf(#[trigger] rs[k]) by {
            lemma_expr_wf_kept(p, es[k], rs[k]);
        }
    }
    if forall|k: int| 0 <= k < rs.len() ==> expr_wf(#[trigger] rs[k]) {
        assert forall|k: int| 0 <= k < es.len() implies expr_wf(#[trigger] es[k]) by {
            lemma_expr_wf_kept(p, es[k], rs[k]);
            assert(expr_wf(rs[k]));
        }
    }
}

proof fn lemma_props_wf_kept(p: bool, ps: Vec<Prop>, rs: Vec<Prop>)
    requires
        rs.len() == ps.len(),
        forall|k: int| 0 <= k < ps.len() ==> prop_renamed(p, ps[k], #[trigger] rs[k]),
    ensures
        (forall|k: int| 0 <= k < ps.len() ==> prop_wf(#[trigger] ps[k])) == (forall|k: int|
            0 <= k < rs.len() ==> prop_wf(#[trigger] rs[k])),
    decreases ps,
{
    if forall|k: int| 0 <= k < ps.len() ==> prop_wf(#[trigger] ps[k]) {
        assert forall|k: int| 0 <= k < rs.len() implies prop_wf(#[trigger] rs[k]) by {
            lemma_prop_wf_kept(p, ps[k], rs[k]);
        }
    }
    if forall|k: int| 0 <= k < rs.len() ==> prop_wf(#[trigger] rs[k]) {
        assert forall|k: int| 0 <= k < ps.len() implies prop_wf(#[trigger] ps[k]) by {
            lemma_prop_wf_kept(p, ps[k], rs[k]);
            assert(prop_wf(rs[k]));
        }
    }
}

proof fn lemma_prop_wf_kept(p: bool, pr: Prop, r: Prop)
    requires
        prop_renamed(p, pr, r),
    ensures
        prop_wf(pr) == prop_wf(r),
    decreases pr,
{
    if pr.key is Ident {
        lemma_ident_wf_kept(p, pr.key->Ident_0, r.key->Ident_0);
    }
    lemma_expr_wf_kept(p, pr.value, r.value);
}

proof fn lemma_stmt_wf_kept(p: bool, s: Stmt, r: Stmt)
    requires
        stmt_renamed(p, s, r),
    ensures
        stmt_wf(s) == stmt_wf(r),
    decreases s,
{
    match s {
        Stmt::Expr(e) => lemma_expr_wf_kept(p, e, r->Expr_0),
        Stmt::Var { name, init } => {
            lemma_ident_wf_kept(p, name, r->name);
            match init {
                None => {},
                Some(x) => lemma_expr_wf_kept(p, x, r->init->0),
            }
        },
        Stmt::Return(v) => {
            match v {
                None => {},
                Some(x) => lemma_expr_wf_kept(p, x, r->Return_0->0),
            }
        },
        Stmt::If { test, cons, alt } => {
            lemma_expr_wf_kept(p, test, r->test);
            lemma_stmt_wf_kept(p, *cons, *r->cons);
            match alt {
                None => {},
                Some(a) => lemma_stmt_wf_kept(p, *a, *r->alt->0),
            }
        },
        Stmt::Block(ss) => {
            if forall|k: int| 0 <= k < ss.len() ==> stmt_wf(#[trigger] ss[k]) {
                assert forall|k: int| 0 <= k < r->Block_0.len() implies stmt_wf(#[trigger] r->Block_0[k]) by {
                    lemma_stmt_wf_kept(p, ss[k], r->Block_0[k]);
                }
            }
            if forall|k: int| 0 <= k < r->Block_0.len() ==> stmt_wf(#[trigger] r->Block_0[k]) {
                assert forall|k: int| 0 <= k < ss.len() implies stmt_wf(#[trigger] ss[k]) by {
                    lemma_stmt_wf_kept(p, ss[k], r->Block_0[k]);
                    assert(stmt_wf(r->Block_0[k]));
                }
            }
        },
        Stmt::Fn(f) => lemma_function_wf_kept(p, f, r->Fn_0),
    }
}

proof fn lemma_function_wf_kept(p: bool, f: Function, r: Function)
    requires
        function_renamed(p, f, r),
    ensures
        function_wf(f) == function_wf(r),
    decreases f,
{
    lemma_ident_wf_kept(p, f.ident, r.ident);
    if forall|k: int| 0 <= k < f.params.len() ==> ident_wf(#[trigger] f.params[k]) {
        assert forall|k: int| 0 <= k < r.params.len() implies ident_wf(#[trigger] r.params[k]) by {
            lemma_ident_wf_kept(p, f.params[k], r.params[k]);
        }
    }
    if forall|k: int| 0 <= k < r.params.len() ==> ident_wf(#[trigger] r.params[k]) {
        assert forall|k: int| 0 <= k < f.params.len() implies ident_wf(#[trigger] f.params[k]) by {
            lemma_ident_wf_kept(p, f.params[k], r.params[k]);
            assert(ident_wf(r.params[k]));
        }
    }
    if forall|k: int| 0 <= k < f.body.len() ==> stmt_wf(#[trigger] f.body[k]) {
        assert forall|k: int| 0 <= k < r.body.len() implies stmt_wf(#[trigger] r.body[k]) by {
            lemma_stmt_wf_kept(p, f.body[k], r.body[k]);
        }
    }
    if forall|k: int| 0 <= k < r.body.len() ==> stmt_wf(#[trigger] r.body[k]) {
        assert forall|k: int| 0 <= k < f.body.len() implies stmt_wf(#[trigger] f.body[k]) by {
            lemma_stmt_wf_kept(p, f.body[k], r.body[k]);
            assert(stmt_wf(r.body[k]));
        }
    }
}

proof fn lemma_import_specifier_wf_kept(p: bool, s: ImportSpecifier, r: ImportSpecifier)
    requires
        import_specifier_renamed(p, s, r),
    ensures
        import_specifier_wf(s) == import_specifier_wf(r),
{
    match s {
        ImportSpecifier::Aliased { local, imported } => {
            lemma_ident_wf_kept(p, local, r->local);
            lemma_ident_wf_kept(p, imported, r->imported);
        },
        ImportSpecifier::Direct { name } => lemma_ident_wf_kept(p, name, r->name),
    }
}

proof fn lemma_export_specifier_wf_kept(p: bool, s: ExportSpecifier, r: ExportSpecifier)
    requires
        export_specifier_same(s, r),
    ensures
        export_specifier_wf(s) == export_specifier_wf(r),
{
    lemma_ident_wf_kept(p, s.orig, r.orig);
    if s.exported is Some {
        lemma_ident_wf_kept(p, s.exported->0, r.exported->0);
    }
}

proof fn lemma_module_item_wf_kept(p: bool, it: ModuleItem, r: ModuleItem)
    requires
        module_item_renamed(p, it, r),
    ensures
        module_item_wf(it) == module_item_wf(r),
{
    match it {
        ModuleItem::Import { specifiers, src } => {
            if forall|k: int| 0 <= k < specifiers.len() ==> import_specifier_wf(#[trigger] specifiers[k]) {
                assert forall|k: int| 0 <= k < r->Import_specifiers.len() implies import_specifier_wf(#[trigger] r->Import_specifiers[k]) by {
                    lemma_import_specifier_wf_kept(p, specifiers[k], r->Import_specifiers[k]);
                }
            }
            if forall|k: int| 0 <= k < r->Import_specifiers.len() ==> import_specifier_wf(#[trigger] r->Import_specifiers[k]) {
                assert forall|k: int| 0 <= k < specifiers.len() implies import_specifier_wf(#[trigger] specifiers[k]) by {
                    lemma_import_specifier_wf_kept(p, specifiers[k], r->Import_specifiers[k]);
                    assert(import_specifier_wf(r->Import_specifiers[k]));
                }
            }
        },
        ModuleItem::Export { specifiers, src } => {
            if forall|k: int| 0 <= k < specifiers.len() ==> export_specifier_wf(#[trigger] specifiers[k]) {
                assert forall|k: int| 0 <= k < r->Export_specifiers.len() implies export_specifier_wf(#[trigger] r->Export_specifiers[k]) by {
                    lemma_export_specifier_wf_kept(p, specifiers[k], r->Export_specifiers[k]);
                }
            }
            if forall|k: int| 0 <= k < r->Export_specifiers.len() ==> export_specifier_wf(#[trigger] r->Export_specifiers[k]) {
                assert forall|k: int| 0 <= k < specifiers.len() implies export_specifier_wf(#[trigger] specifiers[k]) by {
                    lemma_export_specifier_wf_kept(p, specifiers[k], r->Export_specifiers[k]);
                    assert(export_specifier_wf(r->Export_specifiers[k]));
                }
            }
        },
        ModuleItem::Stmt(s) => lemma_stmt_wf_kept(p, s, r->Stmt_0),
    }
}

/// The rewrite keeps a module well formed, and does not make an ill-formed
/// one well formed: renaming only ever puts `_` in front of a non-empty
/// symbol, and no span changes.
pub proof fn lemma_rename_keeps_wf(preserve_import: bool, m: Module, r: Module)
    requires
        module_renamed(preserve_import, m, r),
    ensures
        module_wf(m) == module_wf(r),
{
    if forall|k: int| 0 <= k < m.body.len() ==> module_item_wf(#[trigger] m.body[k]) {
        assert forall|k: int| 0 <= k < r.body.len() implies module_item_wf(#[trigger] r.body[k]) by {
            lemma_module_item_wf_kept(preserve_import, m.body[k], r.body[k]);
        }
    }
    if forall|k: int| 0 <= k < r.body.len() ==> module_item_wf(#[trigger] r.body[k]) {
        assert forall|k: int| 0 <= k < m.body.len() implies module_item_wf(#[trigger] m.body[k]) by {
            lemma_module_item_wf_kept(preserve_import, m.body[k], r.body[k]);
            assert(module_item_wf(r.body[k]));
        }
    }
}

} // verus!
