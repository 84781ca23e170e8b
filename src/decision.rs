use vstd::prelude::*;

use crate::ast::Ident;
use crate::validate::ident_wf;

verus! {

/// The words that ES3 reserved as future keywords and later editions freed.
pub open spec fn es3_reserved_word(s: Seq<char>) -> bool {
    ||| s == "abstract"@
    ||| s == "boolean"@
    ||| s == "byte"@
    ||| s == "char"@
    ||| s == "double"@
    ||| s == "final"@
    ||| s == "float"@
    ||| s == "goto"@
    ||| s == "int"@
    ||| s == "long"@
    ||| s == "native"@
    ||| s == "short"@
    ||| s == "synchronized"@
    ||| s == "throws"@
    ||| s == "transient"@
    ||| s == "volatile"@
}

/// `s` with a single `_` in front.
pub open spec fn prefixed(s: Seq<char>) -> Seq<char> {
    seq!['_'] + s
}

/// The symbol that the rename decision gives to an identifier spelled `s`.
pub open spec fn renamed_sym(preserve_import: bool, s: Seq<char>) -> Seq<char> {
    if preserve_import && s == "import"@ {
        s
    } else if es3_reserved_word(s) {
        prefixed(s)
    } else {
        s
    }
}

/// `r` is `i` after the rename decision: the same span, the decided symbol.
pub open spec fn ident_renamed(preserve_import: bool, i: Ident, r: Ident) -> bool {
    &&& r.span == i.span
    &&& r.sym@ == renamed_sym(preserve_import, i.sym@)
}

/// `r` is a copy of `i`.
pub open spec fn ident_same(i: Ident, r: Ident) -> bool {
    &&& r.span == i.span
    &&& r.sym@ == i.sym@
}

/// No reserved word starts with `_`, and `import` is not one of them.
pub proof fn lemma_reserved_word_shape(s: Seq<char>)
    ensures
        es3_reserved_word(s) ==> s.len() > 0 && s[0] != '_',
        es3_reserved_word(s) ==> s != "import"@,
{
    reveal_strlit("abstract");
    reveal_strlit("boolean");
    reveal_strlit("byte");
    reveal_strlit("char");
    reveal_strlit("double");
    reveal_strlit("final");
    reveal_strlit("float");
    reveal_strlit("goto");
    reveal_strlit("int");
    reveal_strlit("long");
    reveal_strlit("native");
    reveal_strlit("short");
    reveal_strlit("synchronized");
    reveal_strlit("throws");
    reveal_strlit("transient");
    reveal_strlit("volatile");
    reveal_strlit("import");
    if s == "import"@ {
        assert(s.len() == 6 && s[0] == 'i');
    }
}

/// Relies on swc_ecma_ast's `EsReserved::is_reserved_in_es3` on `&str`: a
/// lookup of the string in the crate's fixed set of ES3 future keywords.
#[verifier::external_body]
fn is_reserved_in_es3(s: &str) -> (r: bool)
    ensures
        r == es3_reserved_word(s@),
{
    swc_ecma_ast::EsReserved::is_reserved_in_es3(&s)
}

/// Whether an identifier spelled `sym` is renamed by the pass.
pub fn needs_rename(preserve_import: bool, sym: &String) -> (r: bool)
    ensures
        r == (renamed_sym(preserve_import, sym@) != sym@),
{
    let import = String::from_str("import");
    if preserve_import && *sym == import {
        return false;
    }
    let reserved = is_reserved_in_es3(sym.as_str());
    proof {
        reveal_strlit("import");
        if reserved {
            assert(prefixed(sym@).len() == sym@.len() + 1);
        }
    }
    reserved
}

/// The rename decision: an identifier whose symbol is an ES3 reserved word
/// gets a `_` in front, unless it is `import` and `preserve_import` is set;
/// every other identifier is copied unchanged.
pub fn fold_ident(preserve_import: bool, i: &Ident) -> (r: Ident)
    ensures
        ident_renamed(preserve_import, *i, r),
        ident_wf(*i) == ident_wf(r),
{
    proof {
        lemma_reserved_word_shape(i.sym@);
    }
    if needs_rename(preserve_import, &i.sym) {
        let mut sym = String::from_str("_");
        sym.append(i.sym.as_str());
        proof {
            reveal_strlit("_");
            assert(sym@ =~= prefixed(i.sym@));
        }
        Ident { sym, span: i.span }
    } else {
        Ident { sym: i.sym.clone(), span: i.span }
    }
}

/// A copy of `i`, for the places where an identifier is kept as written.
pub fn copy_ident(i: &Ident) -> (r: Ident)
    ensures
        ident_same(*i, r),
{
    Ident { sym: i.sym.clone(), span: i.span }
}

} // verus!
