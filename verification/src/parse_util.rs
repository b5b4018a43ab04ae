//! Token-level helpers shared by the attribute parsers.

use vstd::prelude::*;
use proc_macro2::Span;
use crate::tokens::{Delimiter, Tok, TokKindV, TokV, TokenKind, tv};
use crate::text::str_eq;
use crate::model::{Ident, IdentV, Visibility};

verus! {

/// The identifier at position `i`, if there is one.
pub open spec fn ident_at(t: Seq<TokV>, i: int) -> Option<Seq<char>> {
    if 0 <= i < t.len() {
        match t[i].kind {
            TokKindV::Ident(s) => Some(s),
            _ => None,
        }
    } else {
        None
    }
}

/// Whether the punctuation character `c` is at position `i`.
pub open spec fn punct_at(t: Seq<TokV>, i: int, c: char) -> bool {
    0 <= i < t.len() && (t[i].kind matches TokKindV::Punct(pc, _) && pc == c)
}

pub open spec fn open_at(t: Seq<TokV>, i: int, d: Delimiter) -> bool {
    0 <= i < t.len() && t[i].kind == TokKindV::Open(d)
}

pub open spec fn close_at(t: Seq<TokV>, i: int, d: Delimiter) -> bool {
    0 <= i < t.len() && t[i].kind == TokKindV::Close(d)
}

/// The span of the token at `i`, or `end` past the last token.
pub open spec fn span_at(t: Seq<TokV>, i: int, end: Span) -> Span {
    if 0 <= i < t.len() {
        t[i].span
    } else {
        end
    }
}

/// The words that cannot be used as identifiers.
pub open spec fn is_keyword(s: Seq<char>) -> bool {
    s == "_"@
        || s == "abstract"@
        || s == "as"@
        || s == "async"@
        || s == "await"@
        || s == "become"@
        || s == "box"@
        || s == "break"@
        || s == "const"@
        || s == "continue"@
        || s == "crate"@
        || s == "do"@
        || s == "dyn"@
        || s == "else"@
        || s == "enum"@
        || s == "extern"@
        || s == "false"@
        || s == "final"@
        || s == "fn"@
        || s == "for"@
        || s == "if"@
        || s == "impl"@
        || s == "in"@
        || s == "let"@
        || s == "loop"@
        || s == "macro"@
        || s == "match"@
        || s == "mod"@
        || s == "move"@
        || s == "mut"@
        || s == "override"@
        || s == "priv"@
        || s == "pub"@
        || s == "ref"@
        || s == "return"@
        || s == "Self"@
        || s == "self"@
        || s == "static"@
        || s == "struct"@
        || s == "super"@
        || s == "trait"@
        || s == "true"@
        || s == "try"@
        || s == "type"@
        || s == "typeof"@
        || s == "unsafe"@
        || s == "unsized"@
        || s == "use"@
        || s == "virtual"@
        || s == "where"@
        || s == "while"@
        || s == "yield"@
}

/// An identifier that is not a keyword, at position `i`.
pub open spec fn word_at(t: Seq<TokV>, i: int) -> Option<Seq<char>> {
    match ident_at(t, i) {
        Some(s) => if is_keyword(s) { None } else { Some(s) },
        None => None,
    }
}

pub fn check_keyword(s: &str) -> (r: bool)
    ensures
        r == is_keyword(s@),
{
    str_eq(s, "_")
        || str_eq(s, "abstract")
        || str_eq(s, "as")
        || str_eq(s, "async")
        || str_eq(s, "await")
        || str_eq(s, "become")
        || str_eq(s, "box")
        || str_eq(s, "break")
        || str_eq(s, "const")
        || str_eq(s, "continue")
        || str_eq(s, "crate")
        || str_eq(s, "do")
        || str_eq(s, "dyn")
        || str_eq(s, "else")
        || str_eq(s, "enum")
        || str_eq(s, "extern")
        || str_eq(s, "false")
        || str_eq(s, "final")
        || str_eq(s, "fn")
        || str_eq(s, "for")
        || str_eq(s, "if")
        || str_eq(s, "impl")
        || str_eq(s, "in")
        || str_eq(s, "let")
        || str_eq(s, "loop")
        || str_eq(s, "macro")
        || str_eq(s, "match")
        || str_eq(s, "mod")
        || str_eq(s, "move")
        || str_eq(s, "mut")
        || str_eq(s, "override")
        || str_eq(s, "priv")
        || str_eq(s, "pub")
        || str_eq(s, "ref")
        || str_eq(s, "return")
        || str_eq(s, "Self")
        || str_eq(s, "self")
        || str_eq(s, "static")
        || str_eq(s, "struct")
        || str_eq(s, "super")
        || str_eq(s, "trait")
        || str_eq(s, "true")
        || str_eq(s, "try")
        || str_eq(s, "type")
        || str_eq(s, "typeof")
        || str_eq(s, "unsafe")
        || str_eq(s, "unsized")
        || str_eq(s, "use")
        || str_eq(s, "virtual")
        || str_eq(s, "where")
        || str_eq(s, "while")
        || str_eq(s, "yield")
}

pub fn span_of(toks: &Vec<Tok>, i: usize, end: Span) -> (r: Span)
    ensures
        r == span_at(tv(toks@), i as int, end),
{
    if i < toks.len() {
        toks[i].span
    } else {
        end
    }
}

pub fn is_punct_at(toks: &Vec<Tok>, i: usize, c: char) -> (r: bool)
    ensures
        r == punct_at(tv(toks@), i as int, c),
{
    if i < toks.len() {
        toks[i].check_punct(c)
    } else {
        false
    }
}

pub fn is_open_at(toks: &Vec<Tok>, i: usize, d: Delimiter) -> (r: bool)
    ensures
        r == open_at(tv(toks@), i as int, d),
{
    if i < toks.len() {
        toks[i].check_open(d)
    } else {
        false
    }
}

pub fn is_close_at(toks: &Vec<Tok>, i: usize, d: Delimiter) -> (r: bool)
    ensures
        r == close_at(tv(toks@), i as int, d),
{
    if i < toks.len() {
        toks[i].check_close(d)
    } else {
        false
    }
}

/// Whether the identifier `s` is at position `i`.
pub fn is_ident_at(toks: &Vec<Tok>, i: usize, s: &str) -> (r: bool)
    ensures
        r == (ident_at(tv(toks@), i as int) == Some(s@)),
{
    if i < toks.len() {
        toks[i].check_ident(s)
    } else {
        false
    }
}

/// The non-keyword identifier at position `i`.
pub fn word(toks: &Vec<Tok>, i: usize) -> (r: Option<Ident>)
    ensures
        match r {
            Some(id) => word_at(tv(toks@), i as int) == Some(id.name@) && id.span == tv(toks@)[i as int].span,
            None => word_at(tv(toks@), i as int) is None,
        },
{
    if i < toks.len() {
        match &toks[i].kind {
            TokenKind::Ident(s) => {
                if check_keyword(s.as_str()) {
                    None
                } else {
                    Some(Ident { name: s.clone(), span: toks[i].span })
                }
            },
            _ => None,
        }
    } else {
        None
    }
}

/// The position of the first closing parenthesis from `k` on.
pub open spec fn first_close_paren(t: Seq<TokV>, k: int) -> Option<int>
    decreases t.len() - k,
{
    if k < 0 || k >= t.len() {
        None
    } else if t[k].kind == TokKindV::Close(Delimiter::Parenthesis) {
        Some(k)
    } else {
        first_close_paren(t, k + 1)
    }
}

/// How many tokens the visibility at `i` takes: none, `pub`, `pub(crate)`, `pub(self)`,
/// `pub(super)` or `pub(in path)`.
pub open spec fn vis_len(t: Seq<TokV>, i: int) -> nat {
    if ident_at(t, i) == Some("pub"@) {
        if open_at(t, i + 1, Delimiter::Parenthesis) {
            if (ident_at(t, i + 2) == Some("crate"@) || ident_at(t, i + 2) == Some("self"@)
                || ident_at(t, i + 2) == Some("super"@)) && close_at(t, i + 3, Delimiter::Parenthesis) {
                4
            } else if ident_at(t, i + 2) == Some("in"@) {
                match first_close_paren(t, i + 3) {
                    Some(k) => (k - i + 1) as nat,
                    None => 1,
                }
            } else {
                1
            }
        } else {
            1
        }
    } else {
        0
    }
}

fn find_close_paren(toks: &Vec<Tok>, k: usize) -> (r: Option<usize>)
    ensures
        match r {
            Some(x) => first_close_paren(tv(toks@), k as int) == Some(x as int),
            None => first_close_paren(tv(toks@), k as int) is None,
        },
    decreases toks@.len() - k,
{
    if k >= toks.len() {
        None
    } else if toks[k].check_close(Delimiter::Parenthesis) {
        Some(k)
    } else {
        find_close_paren(toks, k + 1)
    }
}

proof fn lemma_first_close_paren_bound(t: Seq<TokV>, k: int)
    ensures
        first_close_paren(t, k) matches Some(x) ==> k <= x < t.len(),
    decreases t.len() - k,
{
    if 0 <= k < t.len() && t[k].kind != TokKindV::Close(Delimiter::Parenthesis) {
        lemma_first_close_paren_bound(t, k + 1);
    }
}

/// The visibility at `i` and the position after it.
pub fn parse_visibility(toks: &Vec<Tok>, i: usize) -> (r: (Visibility, usize))
    requires
        i <= toks@.len(),
    ensures
        r.1 == i + vis_len(tv(toks@), i as int),
        r.1 <= toks@.len(),
        tv(r.0.tokens@) == tv(toks@).subrange(i as int, r.1 as int),
{
    let ghost t = tv(toks@);
    let n = toks.len();
    let len: usize = if is_ident_at(toks, i, "pub") {
        if is_open_at(toks, i + 1, Delimiter::Parenthesis) {
            if (is_ident_at(toks, i + 2, "crate") || is_ident_at(toks, i + 2, "self")
                || is_ident_at(toks, i + 2, "super")) && is_close_at(toks, i + 3, Delimiter::Parenthesis) {
                4
            } else if is_ident_at(toks, i + 2, "in") {
                match find_close_paren(toks, i + 3) {
                    Some(k) => {
                        proof { lemma_first_close_paren_bound(t, i + 3); }
                        k - i + 1
                    },
                    None => 1,
                }
            } else {
                1
            }
        } else {
            1
        }
    } else {
        0
    };
    let mut tokens: Vec<Tok> = Vec::new();
    let mut k: usize = 0;
    while k < len
        invariant
            k <= len,
            i + len <= toks@.len(),
            n == toks@.len(),
            t == tv(toks@),
            tv(tokens@) == t.subrange(i as int, (i + k) as int),
        decreases len - k,
    {
        let ghost before = tokens@;
        tokens.push(toks[i + k].duplicate());
        proof {
            crate::tokens::lemma_tv_push(before, toks@[(i + k) as int]);
            assert(tv(tokens@) =~= t.subrange(i as int, (i + k + 1) as int));
        }
        k = k + 1;
    }
    (Visibility { tokens }, i + len)
}

} // verus!
