//! Splits the tokens of a module or impl block into items, and tells what an attribute was
//! applied to. Groups are written as matching open and close tokens.

use vstd::prelude::*;
use proc_macro2::Span;
use crate::attr_parse::err_at;
use crate::error::{ErrV, MacroError};
use crate::parse_util::{ident_at, punct_at, open_at, vis_len, span_at, is_punct_at, is_open_at, is_ident_at, span_of, parse_visibility};
use crate::input::InputFn;
use crate::model::{Signature, Visibility};
use crate::tokens::{Delimiter, Tok, TokKindV, TokV, TokenKind, tv};

verus! {

/// The position of the close token that ends a group, scanning from `i` at nesting `depth`.
pub open spec fn match_close(t: Seq<TokV>, i: int, depth: nat) -> Option<int>
    decreases t.len() - i,
{
    if i < 0 || i >= t.len() {
        None
    } else {
        match t[i].kind {
            TokKindV::Open(_) => match_close(t, i + 1, depth + 1),
            TokKindV::Close(_) => if depth <= 1 { Some(i) } else { match_close(t, i + 1, (depth - 1) as nat) },
            _ => match_close(t, i + 1, depth),
        }
    }
}

/// The position after the outer attributes `#[...]` that start at `i`.
pub open spec fn attrs_end(t: Seq<TokV>, i: int) -> int
    decreases t.len() - i,
{
    if 0 <= i && punct_at(t, i, '#') && open_at(t, i + 1, Delimiter::Bracket) {
        match match_close(t, i + 2, 1) {
            Some(c) => if i < c + 1 <= t.len() { attrs_end(t, c + 1) } else { i },
            None => i,
        }
    } else {
        i
    }
}

pub open spec fn opt_word(t: Seq<TokV>, i: int, w: Seq<char>) -> int {
    if ident_at(t, i) == Some(w) { i + 1 } else { i }
}

/// Where `fn` would stand after `const`, `async`, `unsafe` and `extern "abi"`.
pub open spec fn fn_keyword_pos(t: Seq<TokV>, i: int) -> int {
    let j = opt_word(t, opt_word(t, opt_word(t, i, "const"@), "async"@), "unsafe"@);
    if ident_at(t, j) == Some("extern"@) {
        if 0 <= j + 1 < t.len() && t[j + 1].kind is Literal { j + 2 } else { j + 1 }
    } else {
        j
    }
}

/// A function starts at `i`.
pub open spec fn is_fn_start(t: Seq<TokV>, i: int) -> bool {
    ident_at(t, fn_keyword_pos(t, i)) == Some("fn"@)
}

/// The first `{` group or `;` from `i` on, other groups being skipped whole.
pub open spec fn stop_pos(t: Seq<TokV>, i: int) -> Option<int>
    decreases t.len() - i,
{
    if i < 0 || i >= t.len() {
        None
    } else {
        match t[i].kind {
            TokKindV::Open(Delimiter::Brace) => Some(i),
            TokKindV::Open(_) => match match_close(t, i + 1, 1) {
                Some(c) => if i < c + 1 <= t.len() { stop_pos(t, c + 1) } else { None },
                None => None,
            },
            TokKindV::Punct(';', _) => Some(i),
            _ => stop_pos(t, i + 1),
        }
    }
}

proof fn lemma_stop_pos_kind(t: Seq<TokV>, i: int)
    ensures
        stop_pos(t, i) matches Some(k) ==> (open_at(t, k, Delimiter::Brace) || punct_at(t, k, ';')),
    decreases t.len() - i,
{
    if 0 <= i < t.len() {
        match t[i].kind {
            TokKindV::Open(Delimiter::Brace) => {},
            TokKindV::Open(_) => {
                match match_close(t, i + 1, 1) {
                    Some(c) => if i < c + 1 <= t.len() { lemma_stop_pos_kind(t, c + 1); },
                    None => {},
                }
            },
            TokKindV::Punct(';', _) => {},
            _ => lemma_stop_pos_kind(t, i + 1),
        }
    }
}

/// The position after the `{` group or the `;` at `k`.
pub open spec fn stop_end(t: Seq<TokV>, k: int) -> Option<int> {
    if open_at(t, k, Delimiter::Brace) {
        match match_close(t, k + 1, 1) {
            Some(c) => Some(c + 1),
            None => None,
        }
    } else {
        Some(k + 1)
    }
}

/// The position after the `;` tokens that start at `i`.
pub open spec fn semis_end(t: Seq<TokV>, i: int) -> int
    decreases t.len() - i,
{
    if 0 <= i < t.len() && punct_at(t, i, ';') { semis_end(t, i + 1) } else { i }
}

/// Where an item ends: after its first `{` group or `;`, and any `;` that follow.
pub open spec fn item_end(t: Seq<TokV>, i: int) -> Option<int> {
    match stop_pos(t, i) {
        Some(k) => match stop_end(t, k) {
            Some(e) => Some(semis_end(t, e)),
            None => None,
        },
        None => None,
    }
}

/// An item: its attributes end at `attrs_end`, its visibility at `vis_end`; a function with
/// a body has its signature end at `sig_end`, where its body starts.
#[derive(Clone, Copy, PartialEq, Eq, Structural, Debug)]
pub struct ItemSplit {
    pub start: usize,
    pub attrs_end: usize,
    pub vis_end: usize,
    pub sig_end: Option<usize>,
    pub end: usize,
}

/// The item at `s`. `want_pub`: only functions with a visibility count as functions.
pub open spec fn spec_item(t: Seq<TokV>, s: int, want_pub: bool) -> Option<(int, int, Option<int>, int)> {
    let a = attrs_end(t, s);
    let v = a + vis_len(t, a);
    if (!want_pub || v > a) && is_fn_start(t, v) {
        match stop_pos(t, v) {
            None => None,
            Some(k) => if punct_at(t, k, ';') {
                Some((a, v, None, k + 1))
            } else {
                match stop_end(t, k) {
                    Some(e) => Some((a, v, Some(k), semis_end(t, e))),
                    None => None,
                }
            },
        }
    } else {
        match item_end(t, v) {
            Some(e) => Some((a, v, None, e)),
            None => None,
        }
    }
}

pub open spec fn split_of(s: int, it: (int, int, Option<int>, int)) -> ItemSplit {
    ItemSplit {
        start: s as usize,
        attrs_end: it.0 as usize,
        vis_end: it.1 as usize,
        sig_end: match it.2 { Some(k) => Some(k as usize), None => None },
        end: it.3 as usize,
    }
}

/// The items from `s` to the end; `None` when one of them does not end.
pub open spec fn spec_items(t: Seq<TokV>, s: int, want_pub: bool) -> Option<Seq<ItemSplit>>
    decreases t.len() - s,
{
    if s < 0 || s >= t.len() {
        Some(Seq::empty())
    } else {
        match spec_item(t, s, want_pub) {
            None => None,
            Some(it) => if s < it.3 <= t.len() {
                match spec_items(t, it.3, want_pub) {
                    Some(rest) => Some(seq![split_of(s, it)] + rest),
                    None => None,
                }
            } else {
                None
            },
        }
    }
}

/// The items cover the positions from `s` to `n` one after the other, each at least one token long.
pub open spec fn tiles(items: Seq<ItemSplit>, s: int, n: int) -> bool {
    &&& items.len() == 0 <==> s >= n
    &&& items.len() > 0 ==> items[0].start == s && items.last().end == n
    &&& forall|i: int| 0 <= i < items.len() - 1 ==> #[trigger] items[i].end == items[i + 1].start
    &&& forall|i: int| 0 <= i < items.len() ==> #[trigger] items[i].start < items[i].end
}

/// The item whose header starts at `v` has a `{ .. }` body.
pub open spec fn has_body_at(t: Seq<TokV>, v: int) -> bool {
    stop_pos(t, v) matches Some(k) && !punct_at(t, k, ';')
}

/// How one item is read: its attributes and visibility come first, and it counts as a
/// function (with the signature ending where its body starts) exactly when it has a
/// visibility or visibility is not asked for, starts like a function, and has a `{ .. }` body
/// rather than ending in `;`.
pub proof fn lemma_item_is_fn(t: Seq<TokV>, s: int, want_pub: bool)
    ensures
        spec_item(t, s, want_pub) matches Some((a, v, sig, e)) ==> {
            &&& a == attrs_end(t, s)
            &&& v == a + vis_len(t, a)
            &&& (sig is Some <==> ((!want_pub || v > a) && is_fn_start(t, v) && has_body_at(t, v)))
            &&& (sig matches Some(k) ==> stop_pos(t, v) == Some(k))
        },
{
}

/// Every item of a split is the item read at its start.
pub proof fn lemma_items_read(t: Seq<TokV>, s: int, want_pub: bool)
    requires
        0 <= s <= t.len(),
        t.len() < usize::MAX,
    ensures
        spec_items(t, s, want_pub) matches Some(items) ==> forall|i: int| 0 <= i < items.len() ==>
            (spec_item(t, #[trigger] items[i].start as int, want_pub) matches Some(it)
                && items[i] == split_of(items[i].start as int, it)),
    decreases t.len() - s,
{
    if s < t.len() {
        match spec_item(t, s, want_pub) {
            Some(it) => if s < it.3 <= t.len() {
                lemma_items_read(t, it.3, want_pub);
                match spec_items(t, it.3, want_pub) {
                    Some(rest) => {
                        let items = seq![split_of(s, it)] + rest;
                        assert forall|i: int| 0 <= i < items.len() implies
                            (spec_item(t, #[trigger] items[i].start as int, want_pub) matches Some(it2)
                                && items[i] == split_of(items[i].start as int, it2)) by {
                            if i > 0 {
                                assert(items[i] == rest[i - 1]);
                            } else {
                                assert(items[0] == split_of(s, it));
                                assert(items[0].start as int == s);
                            }
                        }
                    },
                    None => {},
                }
            },
            None => {},
        }
    }
}

/// Splitting loses no token and repeats none: the items follow each other from the first
/// token to the last, so that writing them back in order gives the input.
pub proof fn lemma_items_tile(t: Seq<TokV>, s: int, want_pub: bool)
    requires
        0 <= s <= t.len(),
        t.len() < usize::MAX,
    ensures
        spec_items(t, s, want_pub) matches Some(items) ==> tiles(items, s, t.len() as int),
    decreases t.len() - s,
{
    if s < t.len() {
        match spec_item(t, s, want_pub) {
            Some(it) => if s < it.3 <= t.len() {
                lemma_items_tile(t, it.3, want_pub);
                match spec_items(t, it.3, want_pub) {
                    Some(rest) => {
                        let items = seq![split_of(s, it)] + rest;
                        assert(items[0] == split_of(s, it));
                        assert forall|i: int| 0 <= i < items.len() - 1 implies #[trigger] items[i].end == items[i + 1].start by {
                            if i > 0 {
                                assert(items[i] == rest[i - 1]);
                                assert(items[i + 1] == rest[i]);
                            } else {
                                if rest.len() > 0 {
                                    assert(items[1] == rest[0]);
                                }
                            }
                        }
                        assert forall|i: int| 0 <= i < items.len() implies #[trigger] items[i].start < items[i].end by {
                            if i > 0 {
                                assert(items[i] == rest[i - 1]);
                            }
                        }
                        if rest.len() > 0 {
                            assert(items.last() == rest.last());
                        }
                    },
                    None => {},
                }
            },
            None => {},
        }
    }
}

pub open spec fn read_past_end_message() -> Seq<char> {
    "Read past the end"@
}

fn match_close_exec(toks: &Vec<Tok>, i: usize) -> (r: Option<usize>)
    requires
        toks@.len() < usize::MAX - 2,
    ensures
        match r {
            Some(c) => match_close(tv(toks@), i as int, 1) == Some(c as int) && i <= c < toks@.len(),
            None => match_close(tv(toks@), i as int, 1) is None,
        },
{
    let ghost t = tv(toks@);
    let mut j = i;
    let mut depth: usize = 1;
    while j < toks.len()
        invariant
            t == tv(toks@),
            toks@.len() < usize::MAX - 2,
            i <= j,
            depth >= 1,
            depth <= j - i + 1,
            match_close(t, i as int, 1) == match_close(t, j as int, depth as nat),
        decreases toks@.len() - j,
    {
        assert(t[j as int] == toks@[j as int]@);
        match &toks[j].kind {
            TokenKind::Open(_) => {
                depth = depth + 1;
            },
            TokenKind::Close(_) => {
                if depth <= 1 {
                    return Some(j);
                }
                depth = depth - 1;
            },
            _ => {},
        }
        j = j + 1;
    }
    None
}

fn attrs_end_exec(toks: &Vec<Tok>, i: usize) -> (r: usize)
    requires
        toks@.len() < usize::MAX - 2,
        i <= toks@.len(),
    ensures
        r as int == attrs_end(tv(toks@), i as int),
        i <= r,
        r <= toks@.len() || r == i,
{
    let ghost t = tv(toks@);
    let mut j = i;
    while j < toks.len() && is_punct_at(toks, j, '#') && is_open_at(toks, j + 1, Delimiter::Bracket)
        invariant
            t == tv(toks@),
            toks@.len() < usize::MAX - 2,
            i <= j,
            j <= toks@.len(),
            attrs_end(t, i as int) == attrs_end(t, j as int),
        decreases toks@.len() - j,
    {
        match match_close_exec(toks, j + 2) {
            Some(c) => {
                if j < c + 1 && c + 1 <= toks.len() {
                    j = c + 1;
                } else {
                    return j;
                }
            },
            None => {
                return j;
            },
        }
    }
    j
}

fn opt_word_exec(toks: &Vec<Tok>, i: usize, w: &str) -> (r: usize)
    requires
        i < usize::MAX,
    ensures
        r as int == opt_word(tv(toks@), i as int, w@),
{
    if is_ident_at(toks, i, w) { i + 1 } else { i }
}

fn is_fn_start_exec(toks: &Vec<Tok>, i: usize) -> (r: bool)
    requires
        i <= toks@.len(),
        toks@.len() < usize::MAX - 4,
    ensures
        r == is_fn_start(tv(toks@), i as int),
{
    let ghost t = tv(toks@);
    let j = opt_word_exec(toks, i, "const");
    let j = opt_word_exec(toks, j, "async");
    let j = opt_word_exec(toks, j, "unsafe");
    let k = if is_ident_at(toks, j, "extern") {
        if j + 1 < toks.len() && match &toks[j + 1].kind {
            TokenKind::Literal(_) => true,
            _ => false,
        } {
            j + 2
        } else {
            j + 1
        }
    } else {
        j
    };
    proof {
        if j + 1 < toks@.len() {
            assert(t[j + 1] == toks@[j + 1]@);
        }
    }
    assert(k as int == fn_keyword_pos(t, i as int));
    is_ident_at(toks, k, "fn")
}

fn stop_pos_exec(toks: &Vec<Tok>, i: usize) -> (r: Option<usize>)
    requires
        toks@.len() < usize::MAX - 2,
    ensures
        match r {
            Some(k) => stop_pos(tv(toks@), i as int) == Some(k as int) && i <= k < toks@.len(),
            None => stop_pos(tv(toks@), i as int) is None,
        },
{
    let ghost t = tv(toks@);
    let mut j = i;
    while j < toks.len()
        invariant
            t == tv(toks@),
            toks@.len() < usize::MAX - 2,
            i <= j,
            stop_pos(t, i as int) == stop_pos(t, j as int),
        decreases toks@.len() - j,
    {
        assert(t[j as int] == toks@[j as int]@);
        match &toks[j].kind {
            TokenKind::Open(Delimiter::Brace) => {
                return Some(j);
            },
            TokenKind::Open(_) => {
                match match_close_exec(toks, j + 1) {
                    Some(c) => {
                        if j < c + 1 && c + 1 <= toks.len() {
                            j = c + 1;
                        } else {
                            return None;
                        }
                    },
                    None => {
                        return None;
                    },
                }
            },
            TokenKind::Punct(';', _) => {
                return Some(j);
            },
            _ => {
                j = j + 1;
            },
        }
    }
    None
}

fn semis_end_exec(toks: &Vec<Tok>, i: usize) -> (r: usize)
    requires
        i <= toks@.len(),
    ensures
        r as int == semis_end(tv(toks@), i as int),
        i <= r,
        r <= toks@.len() || r == i,
{
    let ghost t = tv(toks@);
    let mut j = i;
    while j < toks.len() && is_punct_at(toks, j, ';')
        invariant
            t == tv(toks@),
            i <= j,
            j <= toks@.len(),
            semis_end(t, i as int) == semis_end(t, j as int),
        decreases toks@.len() - j,
    {
        j = j + 1;
    }
    j
}

/// The item that starts at `s`.
fn item_at(toks: &Vec<Tok>, s: usize, want_pub: bool) -> (r: Option<ItemSplit>)
    requires
        s < toks@.len(),
        toks@.len() < usize::MAX - 4,
    ensures
        match spec_item(tv(toks@), s as int, want_pub) {
            Some(it) => r == Some(split_of(s as int, it)) && it.3 <= toks@.len() && s < it.3,
            None => r is None,
        },
{
    let ghost t = tv(toks@);
    let a = attrs_end_exec(toks, s);
    let (_, v) = crate::parse_util::parse_visibility(toks, a);
    proof {
        reveal_strlit("const");
        reveal_strlit("async");
        reveal_strlit("unsafe");
        reveal_strlit("extern");
        reveal_strlit("fn");
    }
    proof { lemma_stop_pos_kind(t, v as int); }
    if (!want_pub || v > a) && is_fn_start_exec(toks, v) {
        match stop_pos_exec(toks, v) {
            None => None,
            Some(k) => {
                if is_punct_at(toks, k, ';') {
                    Some(ItemSplit { start: s, attrs_end: a, vis_end: v, sig_end: None, end: k + 1 })
                } else {
                    match match_close_exec(toks, k + 1) {
                        Some(c) => {
                            let e = semis_end_exec(toks, c + 1);
                            assert(stop_end(t, k as int) == Some(c as int + 1));
                            assert(e as int == semis_end(t, c as int + 1));
                            Some(ItemSplit { start: s, attrs_end: a, vis_end: v, sig_end: Some(k), end: e })
                        },
                        None => None,
                    }
                }
            },
        }
    } else {
        match stop_pos_exec(toks, v) {
            None => None,
            Some(k) => {
                if is_open_at(toks, k, Delimiter::Brace) {
                    match match_close_exec(toks, k + 1) {
                        Some(c) => {
                            let e = semis_end_exec(toks, c + 1);
                            assert(item_end(t, v as int) == Some(e as int));
                            Some(ItemSplit { start: s, attrs_end: a, vis_end: v, sig_end: None, end: e })
                        },
                        None => None,
                    }
                } else {
                    let e = semis_end_exec(toks, k + 1);
                    assert(item_end(t, v as int) == Some(e as int));
                    Some(ItemSplit { start: s, attrs_end: a, vis_end: v, sig_end: None, end: e })
                }
            },
        }
    }
}

/// Splits tokens into items: each item starts where the one before ended, and the last one
/// ends with the tokens. An item that does not end is an error.
pub fn split_items(toks: &Vec<Tok>, want_pub: bool, end_span: Span) -> (r: Result<Vec<ItemSplit>, MacroError>)
    requires
        toks@.len() < usize::MAX - 4,
    ensures
        match spec_items(tv(toks@), 0, want_pub) {
            Some(items) => r matches Ok(v) && v@ == items,
            None => r matches Err(e) && e@ == err_at(end_span, read_past_end_message()),
        },
{
    let ghost t = tv(toks@);
    let mut out: Vec<ItemSplit> = Vec::new();
    let mut s: usize = 0;
    while s < toks.len()
        invariant
            t == tv(toks@),
            toks@.len() < usize::MAX - 4,
            s <= toks@.len(),
            spec_items(t, 0, want_pub) == match spec_items(t, s as int, want_pub) {
                Some(rest) => Some(out@ + rest),
                None => None::<Seq<ItemSplit>>,
            },
        decreases toks@.len() - s,
    {
        match item_at(toks, s, want_pub) {
            Some(it) => {
                let ghost before = out@;
                out.push(it);
                proof {
                    let rest = spec_items(t, it.end as int, want_pub);
                    match rest {
                        Some(r2) => {
                            assert(before + (seq![it] + r2) =~= out@ + r2);
                        },
                        None => {},
                    }
                }
                s = it.end;
            },
            None => {
                return Err(MacroError::new(end_span, "Read past the end"));
            },
        }
    }
    assert(out@ + Seq::<ItemSplit>::empty() =~= out@);
    Ok(out)
}

/// Where a single function given to the attribute splits: after its attributes, after its
/// visibility, and at the start of its body.
pub open spec fn spec_fn_split(t: Seq<TokV>) -> Option<(int, int, int)> {
    let a = attrs_end(t, 0);
    let v = a + vis_len(t, a);
    match stop_pos(t, v) {
        Some(k) => Some((a, v, k)),
        None => None,
    }
}

/// The tokens from `from` to `to`.
fn copy_range(toks: &Vec<Tok>, from: usize, to: usize) -> (r: Vec<Tok>)
    requires
        from <= to <= toks@.len(),
    ensures
        tv(r@) == tv(toks@).subrange(from as int, to as int),
{
    let mut r: Vec<Tok> = Vec::new();
    let mut i = from;
    while i < to
        invariant
            from <= i <= to <= toks@.len(),
            tv(r@) == tv(toks@).subrange(from as int, i as int),
        decreases to - i,
    {
        let ghost before = r@;
        let tok = toks[i].duplicate();
        r.push(tok);
        proof { crate::tokens::lemma_tv_push(before, tok); }
        assert(r@ == before.push(tok));
        assert(tv(toks@).subrange(from as int, i + 1) =~= tv(toks@).subrange(from as int, i as int).push(toks@[i as int]@));
        i = i + 1;
    }
    r
}

/// The parts of a function given to the attribute, as written.
pub struct FnParts {
    pub attrs: Vec<Tok>,
    pub vis: Visibility,
    pub sig_tokens: Vec<Tok>,
    pub body: Vec<Tok>,
}

impl FnParts {
    pub open spec fn spec_tokens(&self) -> Seq<TokV> {
        tv(self.attrs@) + tv(self.vis.tokens@) + tv(self.sig_tokens@) + tv(self.body@)
    }

    /// The function, with `fn_sig` the model of `sig_tokens`.
    pub fn into_input_fn(self, fn_sig: Signature) -> (f: InputFn)
        ensures
            f.fn_attrs == self.attrs,
            f.fn_vis == self.vis,
            f.sig_tokens == self.sig_tokens,
            f.fn_body == self.body,
            f.fn_sig == fn_sig,
            f.spec_tokens() == self.spec_tokens(),
    {
        InputFn { fn_attrs: self.attrs, fn_vis: self.vis, sig_tokens: self.sig_tokens, fn_sig, fn_body: self.body }
    }
}

/// Splits a single function into attributes, visibility, signature and body; the parts
/// follow each other and make up the whole input. A function without body is an error.
pub fn split_fn(toks: &Vec<Tok>, end: Span) -> (r: Result<FnParts, MacroError>)
    requires
        toks@.len() < usize::MAX - 4,
    ensures
        match spec_fn_split(tv(toks@)) {
            Some((a, v, k)) => r matches Ok(p) && {
                &&& tv(p.attrs@) == tv(toks@).subrange(0, a)
                &&& tv(p.vis.tokens@) == tv(toks@).subrange(a, v)
                &&& tv(p.sig_tokens@) == tv(toks@).subrange(v, k)
                &&& tv(p.body@) == tv(toks@).subrange(k, toks@.len() as int)
                &&& p.spec_tokens() == tv(toks@)
            },
            None => r matches Err(e) && e@ == err_at(end, read_past_end_message()),
        },
{
    let ghost t = tv(toks@);
    let n = toks.len();
    let a = attrs_end_exec(toks, 0);
    let (vis, v) = parse_visibility(toks, a);
    match stop_pos_exec(toks, v) {
        Some(k) => {
            let attrs = copy_range(toks, 0, a);
            let sig_tokens = copy_range(toks, v, k);
            let body = copy_range(toks, k, n);
            let p = FnParts { attrs, vis, sig_tokens, body };
            assert(t.subrange(0, a as int) + t.subrange(a as int, v as int) =~= t.subrange(0, v as int));
            assert(t.subrange(0, v as int) + t.subrange(v as int, k as int) =~= t.subrange(0, k as int));
            assert(t.subrange(0, k as int) + t.subrange(k as int, n as int) =~= t);
            assert(p.spec_tokens() =~= t);
            Ok(p)
        },
        None => Err(MacroError::new(end, "Read past the end")),
    }
}

/// What an `entrait` attribute is applied to.
#[derive(Clone, Copy, PartialEq, Eq, Structural, Debug)]
pub enum InputKind {
    Fn,
    /// A trait, with whether `unsafe` and `auto` were written before `trait`.
    Trait { unsafety: bool, auto_token: bool },
    Mod,
    Impl,
}

pub open spec fn not_allowed_message() -> Seq<char> {
    "Not allowed here"@
}

/// After attributes, visibility, `unsafe` and `auto`: `trait` makes a trait, `impl` an impl
/// block (where `auto` is not allowed), `mod` a module (where neither is), and anything else
/// a function.
pub open spec fn spec_classify(t: Seq<TokV>, end: Span) -> Result<InputKind, ErrV> {
    let a = attrs_end(t, 0);
    let v = a + vis_len(t, a);
    let u = opt_word(t, v, "unsafe"@);
    let w = opt_word(t, u, "auto"@);
    if ident_at(t, w) == Some("trait"@) {
        Ok(InputKind::Trait { unsafety: u > v, auto_token: w > u })
    } else if ident_at(t, w) == Some("impl"@) {
        if w > u { Err(err_at(span_at(t, u, end), not_allowed_message())) } else { Ok(InputKind::Impl) }
    } else if ident_at(t, w) == Some("mod"@) {
        if u > v {
            Err(err_at(span_at(t, v, end), not_allowed_message()))
        } else if w > u {
            Err(err_at(span_at(t, u, end), not_allowed_message()))
        } else {
            Ok(InputKind::Mod)
        }
    } else {
        Ok(InputKind::Fn)
    }
}

pub fn classify_input(toks: &Vec<Tok>, end: Span) -> (r: Result<InputKind, MacroError>)
    requires
        toks@.len() < usize::MAX - 4,
    ensures
        match spec_classify(tv(toks@), end) {
            Ok(k) => r == Ok::<InputKind, MacroError>(k),
            Err(e) => r matches Err(x) && x@ == e,
        },
{
    let a = attrs_end_exec(toks, 0);
    let (_, v) = crate::parse_util::parse_visibility(toks, a);
    proof {
        reveal_strlit("unsafe");
        reveal_strlit("auto");
        reveal_strlit("trait");
        reveal_strlit("impl");
        reveal_strlit("mod");
    }
    let u = if v < toks.len() { opt_word_exec(toks, v, "unsafe") } else { v };
    let w = if u < toks.len() { opt_word_exec(toks, u, "auto") } else { u };
    proof {
        let t = tv(toks@);
        assert(u as int == opt_word(t, v as int, "unsafe"@));
        assert(w as int == opt_word(t, u as int, "auto"@));
    }
    if is_ident_at(toks, w, "trait") {
        Ok(InputKind::Trait { unsafety: u > v, auto_token: w > u })
    } else if is_ident_at(toks, w, "impl") {
        if w > u {
            Err(MacroError::new(span_of(toks, u, end), "Not allowed here"))
        } else {
            Ok(InputKind::Impl)
        }
    } else if is_ident_at(toks, w, "mod") {
        if u > v {
            Err(MacroError::new(span_of(toks, v, end), "Not allowed here"))
        } else if w > u {
            Err(MacroError::new(span_of(toks, u, end), "Not allowed here"))
        } else {
            Ok(InputKind::Mod)
        }
    } else {
        Ok(InputKind::Fn)
    }
}

} // verus!
