use reserved_word::decision::{fold_ident, needs_rename};
use reserved_word::validate::check_module;
use reserved_word::{
    BinaryOp, ExportSpecifier, Expr, Function, Ident, ImportSpecifier, MemberProp, Module,
    ModuleItem, Prop, PropName, ReservedWord, Span, Stmt, UnaryOp,
};

fn span(lo: u32, hi: u32) -> Span {
    Span { lo, hi, ctxt: 0 }
}

fn id(s: &str) -> Ident {
    Ident { sym: s.to_string(), span: span(3, 17) }
}

fn ident(s: &str) -> Expr {
    Expr::Ident(id(s))
}

fn num(n: u64) -> Expr {
    Expr::Num(n)
}

fn bin(op: BinaryOp, left: Expr, right: Expr) -> Expr {
    Expr::Bin { op, left: Box::new(left), right: Box::new(right) }
}

fn module(items: Vec<ModuleItem>) -> Module {
    Module { body: items, span: span(0, 100) }
}

fn pass(preserve_import: bool, m: &Module) -> Module {
    ReservedWord { preserve_import }.fold_module(m).expect("well-formed module")
}

fn utf8_check_byte(param: &str) -> Module {
    let cmp = |shift: u64, value: u64| {
        bin(BinaryOp::EqEqEq, bin(BinaryOp::RShift, ident(param), num(shift)), num(value))
    };
    let ret = |n: u64| Stmt::Return(Some(num(n)));
    let chain = Stmt::If {
        test: bin(BinaryOp::LtEq, ident(param), num(0x7F)),
        cons: Box::new(ret(0)),
        alt: Some(Box::new(Stmt::If {
            test: cmp(5, 0x06),
            cons: Box::new(ret(2)),
            alt: Some(Box::new(Stmt::If {
                test: cmp(4, 0x0E),
                cons: Box::new(ret(3)),
                alt: Some(Box::new(Stmt::If {
                    test: cmp(3, 0x1E),
                    cons: Box::new(ret(4)),
                    alt: None,
                })),
            })),
        })),
    };
    let f = Function {
        ident: id("utf8CheckByte"),
        params: vec![id(param)],
        body: vec![
            chain,
            Stmt::Return(Some(Expr::Unary { op: UnaryOp::Minus, arg: Box::new(num(1)) })),
        ],
    };
    module(vec![ModuleItem::Stmt(Stmt::Fn(f))])
}

fn export_foo_as_default() -> Module {
    module(vec![ModuleItem::Export {
        specifiers: vec![ExportSpecifier { orig: id("Foo"), exported: Some(id("default")) }],
        src: None,
    }])
}

#[test]
fn babel_issue_6477() {
    let out = pass(false, &utf8_check_byte("byte"));
    assert_eq!(out, utf8_check_byte("_byte"));
}

#[test]
fn export_as_default() {
    let out = pass(false, &export_foo_as_default());
    assert_eq!(out, export_foo_as_default());
}

#[test]
fn reserved_export_specifier_kept() {
    let m = || {
        module(vec![ModuleItem::Export {
            specifiers: vec![ExportSpecifier { orig: id("abstract"), exported: Some(id("byte")) }],
            src: Some("m".to_string()),
        }])
    };
    assert_eq!(pass(false, &m()), m());
}

#[test]
fn object_key_kept_value_renamed() {
    let obj = |key: &str, value: &str| {
        module(vec![ModuleItem::Stmt(Stmt::Expr(Expr::Object(vec![
            Prop { key: PropName::Ident(id(key)), value: ident(value) },
            Prop { key: PropName::Str("int".to_string()), value: num(1) },
        ])))])
    };
    assert_eq!(pass(false, &obj("abstract", "short")), obj("abstract", "_short"));
}

#[test]
fn member_names_by_access_kind() {
    let member = |obj: &str, prop: MemberProp| {
        Expr::Member { obj: Box::new(ident(obj)), prop }
    };
    let rw = ReservedWord { preserve_import: false };
    let dotted = rw.fold_expr(&member("obj", MemberProp::Ident(id("abstract"))));
    assert_eq!(dotted, member("obj", MemberProp::Ident(id("abstract"))));
    let computed = rw.fold_expr(&member("obj", MemberProp::Computed(Box::new(ident("abstract")))));
    let abstract_ = Ident { sym: "_abstract".to_string(), span: id("abstract").span };
    assert_eq!(computed, member("obj", MemberProp::Computed(Box::new(Expr::Ident(abstract_)))));
    let on_reserved = rw.fold_expr(&member("final", MemberProp::Ident(id("long"))));
    let final_ = Ident { sym: "_final".to_string(), span: id("final").span };
    assert_eq!(
        on_reserved,
        Expr::Member { obj: Box::new(Expr::Ident(final_)), prop: MemberProp::Ident(id("long")) }
    );
}

#[test]
fn aliased_import_renames_local_only() {
    let rw = ReservedWord { preserve_import: false };
    let s = ImportSpecifier::Aliased { local: id("abstract"), imported: id("interface") };
    let abstract_ = Ident { sym: "_abstract".to_string(), span: id("abstract").span };
    assert_eq!(
        rw.fold_import_specifier(&s),
        ImportSpecifier::Aliased { local: abstract_, imported: id("interface") }
    );
    let s = ImportSpecifier::Aliased { local: id("x"), imported: id("byte") };
    assert_eq!(
        rw.fold_import_specifier(&s),
        ImportSpecifier::Aliased { local: id("x"), imported: id("byte") }
    );
}

#[test]
fn aliased_import_in_module() {
    let m = |local: &str| {
        module(vec![
            ModuleItem::Import {
                specifiers: vec![ImportSpecifier::Aliased { local: id(local), imported: id("interface") }],
                src: "m".to_string(),
            },
            ModuleItem::Stmt(Stmt::Expr(Expr::Call { callee: Box::new(ident(local)), args: vec![] })),
        ])
    };
    assert_eq!(pass(false, &m("abstract")), m("_abstract"));
}

#[test]
fn direct_import_kept() {
    let m = || {
        module(vec![ModuleItem::Import {
            specifiers: vec![ImportSpecifier::Direct { name: id("abstract") }],
            src: "m".to_string(),
        }])
    };
    assert_eq!(pass(false, &m()), m());
    assert_eq!(pass(true, &m()), m());
}

#[test]
fn unreserved_identifiers_kept() {
    let m = |a: &str, b: &str| {
        module(vec![ModuleItem::Stmt(Stmt::Var {
            name: id(a),
            init: Some(Expr::Assign { target: Box::new(ident(b)), value: Box::new(Expr::Str("s".to_string())) }),
        })])
    };
    assert_eq!(pass(false, &m("x", "_abstract")), m("x", "_abstract"));
    assert_eq!(pass(false, &m("abstracts", "Byte")), m("abstracts", "Byte"));
}

#[test]
fn every_reserved_word_gets_prefix() {
    let words = [
        "abstract", "boolean", "byte", "char", "double", "final", "float", "goto", "int", "long",
        "native", "short", "synchronized", "throws", "transient", "volatile",
    ];
    for w in words {
        let r = fold_ident(false, &id(w));
        assert_eq!(r.sym, format!("_{}", w));
        assert_eq!(r.span, id(w).span);
        assert!(needs_rename(true, &w.to_string()));
    }
}

#[test]
fn later_keywords_not_renamed() {
    for w in ["interface", "let", "static", "yield", "enum", "class", "import", "", "_byte"] {
        assert!(!needs_rename(false, &w.to_string()));
        assert_eq!(fold_ident(false, &id(w)).sym, w);
    }
}

#[test]
fn import_identifier_under_both_settings() {
    let call = || {
        module(vec![ModuleItem::Stmt(Stmt::Expr(Expr::Call {
            callee: Box::new(ident("import")),
            args: vec![Expr::Str("./x.js".to_string())],
        }))])
    };
    assert_eq!(pass(true, &call()), call());
    assert_eq!(pass(false, &call()), call());
}

#[test]
fn second_run_is_a_no_op() {
    let once = pass(false, &utf8_check_byte("byte"));
    let twice = pass(false, &once);
    assert_eq!(twice, once);
}

#[test]
fn block_and_var_bindings_renamed() {
    let m = |v: &str, w: &str| {
        module(vec![ModuleItem::Stmt(Stmt::Block(vec![
            Stmt::Var { name: id(v), init: Some(num(1)) },
            Stmt::Var { name: id("x"), init: Some(bin(BinaryOp::Add, ident(w), num(1))) },
        ]))])
    };
    assert_eq!(pass(false, &m("abstract", "abstract")), m("_abstract", "_abstract"));
}

#[test]
fn post_check_refuses_empty_symbol() {
    let m = module(vec![ModuleItem::Stmt(Stmt::Expr(ident("")))]);
    assert!(!check_module(&m));
    assert!(ReservedWord { preserve_import: false }.fold_module(&m).is_none());
}

#[test]
fn post_check_refuses_backward_span() {
    let bad = Ident { sym: "byte".to_string(), span: span(5, 2) };
    let m = module(vec![ModuleItem::Stmt(Stmt::Expr(Expr::Ident(bad)))]);
    assert!(!check_module(&m));
    assert!(ReservedWord { preserve_import: true }.fold_module(&m).is_none());
    let m = Module { body: vec![], span: span(9, 1) };
    assert!(ReservedWord::default().fold_module(&m).is_none());
}

#[test]
fn post_check_accepts_well_formed() {
    let m = utf8_check_byte("byte");
    assert!(check_module(&m));
    assert!(ReservedWord::default().fold_module(&m).is_some());
}
