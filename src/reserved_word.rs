//! The pass: one top-down traversal that sends every binding and reference
//! through the rename decision and leaves surface names alone.
use vstd::prelude::*;

use crate::ast::{
    ExportSpecifier, Expr, Function, Ident, ImportSpecifier, MemberProp, Module, ModuleItem,
    Prop, PropName, Stmt,
};
use crate::decision::{copy_ident, fold_ident, ident_renamed, ident_same};
use crate::laws::lemma_rename_keeps_wf;
use crate::validate::{check_module, module_wf};
use crate::renamed::{
    export_specifier_same, expr_renamed, function_renamed, import_specifier_renamed,
    module_item_renamed, module_renamed, prop_name_same, prop_renamed, stmt_renamed,
};

verus! {

broadcast use vstd::std_specs::vec::group_vec_axioms;

/// The pass's configuration. With `preserve_import` set, an identifier
/// spelled `import` (the one that stands for dynamic import and
/// `import.meta`) is never renamed.
#[derive(Clone, Copy, PartialEq, Eq, Structural, Debug, Default)]
pub struct ReservedWord {
    pub preserve_import: bool,
}

impl ReservedWord {
    /// An identifier in a binding or reference position.
    pub fn fold_ident(&self, i: &Ident) -> (r: Ident)
        ensures
            ident_renamed(self.preserve_import, *i, r),
    {
        fold_ident(self.preserve_import, i)
    }

    /// A property key is surface syntax: it is kept as written.
    pub fn fold_prop_name(&self, k: &PropName) -> (r: PropName)
        ensures
            prop_name_same(*k, r),
    {
        match k {
            PropName::Ident(i) => PropName::Ident(copy_ident(i)),
            PropName::Str(s) => PropName::Str(s.clone()),
            PropName::Num(n) => PropName::Num(*n),
        }
    }

    /// An export specifier names the module's public contract: it is kept
    /// as written.
    pub fn fold_export_specifier(&self, s: &ExportSpecifier) -> (r: ExportSpecifier)
        ensures
            export_specifier_same(*s, r),
    {
        let exported = match &s.exported {
            None => None,
            Some(x) => Some(copy_ident(x)),
        };
        ExportSpecifier { orig: copy_ident(&s.orig), exported }
    }

    /// With an alias, only the local binding goes through the rename
    /// decision; the imported name must match the other module's export.
    /// Without one, the single name is both, and is kept as written.
    pub fn fold_import_specifier(&self, s: &ImportSpecifier) -> (r: ImportSpecifier)
        ensures
            import_specifier_renamed(self.preserve_import, *s, r),
    {
        match s {
            ImportSpecifier::Aliased { local, imported } => ImportSpecifier::Aliased {
                local: self.fold_ident(local),
                imported: copy_ident(imported),
            },
            ImportSpecifier::Direct { name } => ImportSpecifier::Direct { name: copy_ident(name) },
        }
    }

    /// After `.`, a member name is a property key and is kept; inside `[]`
    /// the key is an expression and is rewritten.
    pub fn fold_member_prop(&self, prop: &MemberProp) -> (r: MemberProp)
        ensures
            match *prop {
                MemberProp::Ident(i) => r is Ident && ident_same(i, r->Ident_0),
                MemberProp::Computed(c) => r is Computed && expr_renamed(
                    self.preserve_import,
                    *c,
                    *r->Computed_0,
                ),
            },
        decreases prop,
    {
        match prop {
            MemberProp::Ident(i) => MemberProp::Ident(copy_ident(i)),
            MemberProp::Computed(c) => MemberProp::Computed(Box::new(self.fold_expr(c))),
        }
    }

    pub fn fold_expr(&self, e: &Expr) -> (r: Expr)
        ensures
            expr_renamed(self.preserve_import, *e, r),
        decreases e,
    {
        match e {
            Expr::Ident(i) => Expr::Ident(self.fold_ident(i)),
            Expr::Num(n) => Expr::Num(*n),
            Expr::Str(s) => Expr::Str(s.clone()),
            Expr::Unary { op, arg } => Expr::Unary { op: *op, arg: Box::new(self.fold_expr(arg)) },
            Expr::Bin { op, left, right } => Expr::Bin {
                op: *op,
                left: Box::new(self.fold_expr(left)),
                right: Box::new(self.fold_expr(right)),
            },
            Expr::Assign { target, value } => Expr::Assign {
                target: Box::new(self.fold_expr(target)),
                value: Box::new(self.fold_expr(value)),
            },
            Expr::Member { obj, prop } => Expr::Member {
                obj: Box::new(self.fold_expr(obj)),
                prop: self.fold_member_prop(prop),
            },
            Expr::Call { callee, args } => {
                let callee = Box::new(self.fold_expr(callee));
                let args = self.fold_exprs(args);
                Expr::Call { callee, args }
            },
            Expr::Object(props) => {
                let props = self.fold_props(props);
                Expr::Object(props)
            },
        }
    }

    fn fold_exprs(&self, es: &Vec<Expr>) -> (r: Vec<Expr>)
        ensures
            r.len() == es.len(),
            forall|k: int| 0 <= k < es.len() ==> expr_renamed(self.preserve_import, es[k], #[trigger] r[k]),
        decreases es,
    {
        let mut out: Vec<Expr> = Vec::new();
        let mut k: usize = 0;
        while k < es.len()
            invariant
                k <= es.len(),
                out.len() == k,
                forall|j: int| 0 <= j < k ==> expr_renamed(self.preserve_import, es[j], #[trigger] out[j]),
            decreases es.len() - k,
        {
            out.push(self.fold_expr(&es[k]));
            k = k + 1;
        }
        out
    }

    /// A member of an object literal: the key is kept, the value rewritten.
    pub fn fold_prop(&self, pr: &Prop) -> (r: Prop)
        ensures
            prop_renamed(self.preserve_import, *pr, r),
        decreases pr,
    {
        Prop { key: self.fold_prop_name(&pr.key), value: self.fold_expr(&pr.value) }
    }

    fn fold_props(&self, ps: &Vec<Prop>) -> (r: Vec<Prop>)
        ensures
            r.len() == ps.len(),
            forall|k: int| 0 <= k < ps.len() ==> prop_renamed(self.preserve_import, ps[k], #[trigger] r[k]),
        decreases ps,
    {
        let mut out: Vec<Prop> = Vec::new();
        let mut k: usize = 0;
        while k < ps.len()
            invariant
                k <= ps.len(),
                out.len() == k,
                forall|j: int| 0 <= j < k ==> prop_renamed(self.preserve_import, ps[j], #[trigger] out[j]),
            decreases ps.len() - k,
        {
            out.push(self.fold_prop(&ps[k]));
            k = k + 1;
        }
        out
    }

    pub fn fold_stmt(&self, s: &Stmt) -> (r: Stmt)
        ensures
            stmt_renamed(self.preserve_import, *s, r),
        decreases s,
    {
        match s {
            Stmt::Expr(e) => Stmt::Expr(self.fold_expr(e)),
            Stmt::Var { name, init } => {
                let init = match init {
                    None => None,
                    Some(x) => Some(self.fold_expr(x)),
                };
                Stmt::Var { name: self.fold_ident(name), init }
            },
            Stmt::Return(v) => {
                let v = match v {
                    None => None,
                    Some(x) => Some(self.fold_expr(x)),
                };
                Stmt::Return(v)
            },
            Stmt::If { test, cons, alt } => {
                let alt = match alt {
                    None => None,
                    Some(a) => Some(Box::new(self.fold_stmt(a))),
                };
                Stmt::If { test: self.fold_expr(test), cons: Box::new(self.fold_stmt(cons)), alt }
            },
            Stmt::Block(ss) => Stmt::Block(self.fold_stmts(ss)),
            Stmt::Fn(f) => Stmt::Fn(self.fold_function(f)),
        }
    }

    fn fold_stmts(&self, ss: &Vec<Stmt>) -> (r: Vec<Stmt>)
        ensures
            r.len() == ss.len(),
            forall|k: int| 0 <= k < ss.len() ==> stmt_renamed(self.preserve_import, ss[k], #[trigger] r[k]),
        decreases ss,
    {
        let mut out: Vec<Stmt> = Vec::new();
        let mut k: usize = 0;
        while k < ss.len()
            invariant
                k <= ss.len(),
                out.len() == k,
                forall|j: int| 0 <= j < k ==> stmt_renamed(self.preserve_import, ss[j], #[trigger] out[j]),
            decreases ss.len() - k,
        {
            out.push(self.fold_stmt(&ss[k]));
            k = k + 1;
        }
        out
    }

    /// A function's name and parameters are bindings; its body is rewritten.
    pub fn fold_function(&self, f: &Function) -> (r: Function)
        ensures
            function_renamed(self.preserve_import, *f, r),
        decreases f,
    {
        let mut params: Vec<Ident> = Vec::new();
        let mut k: usize = 0;
        while k < f.params.len()
            invariant
                k <= f.params.len(),
                params.len() == k,
                forall|j: int|
                    0 <= j < k ==> ident_renamed(self.preserve_import, f.params[j], #[trigger] params[j]),
            decreases f.params.len() - k,
        {
            params.push(self.fold_ident(&f.params[k]));
            k = k + 1;
        }
        Function { ident: self.fold_ident(&f.ident), params, body: self.fold_stmts(&f.body) }
    }

    pub fn fold_module_item(&self, it: &ModuleItem) -> (r: ModuleItem)
        ensures
            module_item_renamed(self.preserve_import, *it, r),
    {
        match it {
            ModuleItem::Import { specifiers, src } => {
                let mut out: Vec<ImportSpecifier> = Vec::new();
                let mut k: usize = 0;
                while k < specifiers.len()
                    invariant
                        k <= specifiers.len(),
                        out.len() == k,
                        forall|j: int|
                            0 <= j < k ==> import_specifier_renamed(
                                self.preserve_import,
                                specifiers[j],
                                #[trigger] out[j],
                            ),
                    decreases specifiers.len() - k,
                {
                    out.push(self.fold_import_specifier(&specifiers[k]));
                    k = k + 1;
                }
                ModuleItem::Import { specifiers: out, src: src.clone() }
            },
            ModuleItem::Export { specifiers, src } => {
                let mut out: Vec<ExportSpecifier> = Vec::new();
                let mut k: usize = 0;
                while k < specifiers.len()
                    invariant
                        k <= specifiers.len(),
                        out.len() == k,
                        forall|j: int|
                            0 <= j < k ==> export_specifier_same(specifiers[j], #[trigger] out[j]),
                    decreases specifiers.len() - k,
                {
                    out.push(self.fold_export_specifier(&specifiers[k]));
                    k = k + 1;
                }
                let src = match src {
                    None => None,
                    Some(x) => Some(x.clone()),
                };
                ModuleItem::Export { specifiers: out, src }
            },
            ModuleItem::Stmt(s) => ModuleItem::Stmt(self.fold_stmt(s)),
        }
    }

    /// Rewrites the module's items and spans, then runs the post-check on
    /// the result: `None` when the tree is not well formed, which happens
    /// exactly when it was not well formed when it came in.
    pub fn fold_module(&self, m: &Module) -> (r: Option<Module>)
        ensures
            r is Some <==> module_wf(*m),
            r matches Some(out) ==> module_renamed(self.preserve_import, *m, out) && module_wf(out),
    {
        let mut body: Vec<ModuleItem> = Vec::new();
        let mut k: usize = 0;
        while k < m.body.len()
            invariant
                k <= m.body.len(),
                body.len() == k,
                forall|j: int|
                    0 <= j < k ==> module_item_renamed(self.preserve_import, m.body[j], #[trigger] body[j]),
            decreases m.body.len() - k,
        {
            body.push(self.fold_module_item(&m.body[k]));
            k = k + 1;
        }
        let out = Module { body, span: m.span };
        proof {
            lemma_rename_keeps_wf(self.preserve_import, *m, out);
        }
        if check_module(&out) {
            Some(out)
        } else {
            None
        }
    }
}

} // verus!
