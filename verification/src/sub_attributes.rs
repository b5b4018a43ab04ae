//! The other attributes given _under_ entrait, classified by the last segment of their path.

use vstd::prelude::*;
use crate::parse_util::{ident_at, punct_at};
use crate::tokens::{Tok, TokV, TokenKind, tv, extend};
use crate::text::str_eq;
use crate::trait_codegen::trait_level_subs;
use crate::fn_delegation_codegen::impl_level_subs;
use crate::tokens::lemma_add_assoc;

verus! {

/// An attribute, written as its tokens `#[...]`.
pub enum SubAttribute<'t> {
    AsyncTrait(&'t Vec<Tok>),
    Other(&'t Vec<Tok>),
    Automock(&'t Vec<Tok>),
}

impl<'t> SubAttribute<'t> {
    pub open spec fn tokens(&self) -> Vec<Tok> {
        match *self {
            SubAttribute::AsyncTrait(a) => *a,
            SubAttribute::Other(a) => *a,
            SubAttribute::Automock(a) => *a,
        }
    }

    /// Writes the attribute.
    pub fn write_tokens(&self, out: &mut Vec<Tok>)
        ensures
            tv(final(out)@) == tv(old(out)@) + tv(self.tokens()@),
    {
        match self {
            SubAttribute::AsyncTrait(a) => extend(out, a),
            SubAttribute::Other(a) => extend(out, a),
            SubAttribute::Automock(a) => extend(out, a),
        }
    }
}

/// The last identifier of the path `a::b::c` that starts at `i`.
pub open spec fn path_last_from(t: Seq<TokV>, i: int) -> Option<Seq<char>>
    decreases t.len() - i,
{
    if 0 <= i < t.len() {
        match ident_at(t, i) {
            Some(n) => if punct_at(t, i + 1, ':') && punct_at(t, i + 2, ':') && ident_at(t, i + 3) is Some {
                path_last_from(t, i + 3)
            } else {
                Some(n)
            },
            None => None,
        }
    } else {
        None
    }
}

/// Where the path of `#[path ...]` (or `#![path ...]`) starts, after a leading `::`.
pub open spec fn path_start(t: Seq<TokV>) -> int {
    let s = if punct_at(t, 1, '!') { 3int } else { 2int };
    if punct_at(t, s, ':') && punct_at(t, s + 1, ':') { s + 2 } else { s }
}

/// The last segment of an attribute's path.
pub open spec fn attr_last_segment(t: Seq<TokV>) -> Option<Seq<char>> {
    path_last_from(t, path_start(t))
}

#[derive(Clone, Copy, PartialEq, Eq, Structural, Debug)]
pub enum SubKind {
    AsyncTrait,
    Automock,
    Other,
}

pub open spec fn sub_kind(t: Seq<TokV>) -> SubKind {
    match attr_last_segment(t) {
        Some(n) => if n == "async_trait"@ {
            SubKind::AsyncTrait
        } else if n == "automock"@ {
            SubKind::Automock
        } else {
            SubKind::Other
        },
        None => SubKind::Other,
    }
}

fn path_last_exec(toks: &Vec<Tok>, start: usize) -> (r: Option<&String>)
    ensures
        match r {
            Some(n) => path_last_from(tv(toks@), start as int) == Some(n@),
            None => path_last_from(tv(toks@), start as int) is None,
        },
{
    let ghost t = tv(toks@);
    let mut i = start;
    while i < toks.len()
        invariant
            t == tv(toks@),
            start <= i,
            path_last_from(t, start as int) == path_last_from(t, i as int),
        decreases toks@.len() - i,
    {
        let name = match &toks[i].kind {
            TokenKind::Ident(n) => n,
            _ => return None,
        };
        let more = toks.len() > 3 && i < toks.len() - 3
            && crate::parse_util::is_punct_at(toks, i + 1, ':')
            && crate::parse_util::is_punct_at(toks, i + 2, ':')
            && match &toks[i + 3].kind {
                TokenKind::Ident(_) => true,
                _ => false,
            };
        if !more {
            return Some(name);
        }
        i = i + 3;
    }
    None
}

pub fn sub_kind_of(toks: &Vec<Tok>) -> (r: SubKind)
    ensures
        r == sub_kind(tv(toks@)),
{
    let ghost t = tv(toks@);
    let mut s: usize = if crate::parse_util::is_punct_at(toks, 1, '!') { 3 } else { 2 };
    if crate::parse_util::is_punct_at(toks, s, ':') && crate::parse_util::is_punct_at(toks, s + 1, ':') {
        s = s + 2;
    }
    assert(s as int == path_start(t));
    proof {
        reveal_strlit("async_trait");
        reveal_strlit("automock");
    }
    match path_last_exec(toks, s) {
        Some(n) => {
            if str_eq(n.as_str(), "async_trait") {
                SubKind::AsyncTrait
            } else if str_eq(n.as_str(), "automock") {
                SubKind::Automock
            } else {
                SubKind::Other
            }
        },
        None => SubKind::Other,
    }
}

pub open spec fn classified(a: SubAttribute, t: Vec<Tok>) -> bool {
    match sub_kind(tv(t@)) {
        SubKind::AsyncTrait => a matches SubAttribute::AsyncTrait(x) && *x == t,
        SubKind::Automock => a matches SubAttribute::Automock(x) && *x == t,
        SubKind::Other => a matches SubAttribute::Other(x) && *x == t,
    }
}

/// The attributes that a trait keeps: async-trait and automock.
pub open spec fn trait_level_attrs(attrs: Seq<Vec<Tok>>) -> Seq<TokV>
    decreases attrs.len(),
{
    if attrs.len() == 0 {
        Seq::empty()
    } else {
        let k = sub_kind(tv(attrs.last()@));
        trait_level_attrs(attrs.drop_last()) + if k == SubKind::AsyncTrait || k == SubKind::Automock { tv(attrs.last()@) } else { Seq::empty() }
    }
}

/// The attributes that an implementation of the trait keeps: async-trait.
pub open spec fn impl_level_attrs(attrs: Seq<Vec<Tok>>) -> Seq<TokV>
    decreases attrs.len(),
{
    if attrs.len() == 0 {
        Seq::empty()
    } else {
        impl_level_attrs(attrs.drop_last()) + if sub_kind(tv(attrs.last()@)) == SubKind::AsyncTrait { tv(attrs.last()@) } else { Seq::empty() }
    }
}

/// The attributes that are not async-trait.
pub open spec fn inherent_attrs(attrs: Seq<Vec<Tok>>) -> Seq<TokV>
    decreases attrs.len(),
{
    if attrs.len() == 0 {
        Seq::empty()
    } else {
        inherent_attrs(attrs.drop_last()) + if sub_kind(tv(attrs.last()@)) != SubKind::AsyncTrait { tv(attrs.last()@) } else { Seq::empty() }
    }
}

pub open spec fn attrs_async(attrs: Seq<Vec<Tok>>) -> bool {
    exists|i: int| 0 <= i < attrs.len() && sub_kind(tv(#[trigger] attrs[i]@)) == SubKind::AsyncTrait
}

/// Classifies each attribute by the last segment of its path.
pub fn analyze_sub_attributes<'t>(attributes: &'t Vec<Vec<Tok>>) -> (r: Vec<SubAttribute<'t>>)
    ensures
        r@.len() == attributes@.len(),
        forall|i: int| 0 <= i < r@.len() ==> classified(#[trigger] r@[i], attributes@[i]),
        trait_level_subs(r@) == trait_level_attrs(attributes@),
        impl_level_subs(r@) == impl_level_attrs(attributes@),
        has_async_trait(r@) == attrs_async(attributes@),
{
    let mut r: Vec<SubAttribute<'t>> = Vec::new();
    let mut i: usize = 0;
    let ghost av = attributes@;
    assert(av.take(0) =~= Seq::<Vec<Tok>>::empty());
    assert(r@ =~= Seq::<SubAttribute>::empty());
    while i < attributes.len()
        invariant
            i <= attributes@.len(),
            av == attributes@,
            r@.len() == i,
            forall|j: int| 0 <= j < i ==> classified(#[trigger] r@[j], attributes@[j]),
            trait_level_subs(r@) == trait_level_attrs(av.take(i as int)),
            impl_level_subs(r@) == impl_level_attrs(av.take(i as int)),
            has_async_trait(r@) == attrs_async(av.take(i as int)),
        decreases attributes@.len() - i,
    {
        let a = &attributes[i];
        let ghost t = av.take(i + 1);
        assert(t.drop_last() =~= av.take(i as int));
        assert(t.last() == *a);
        let ghost before = r@;
        let s = match sub_kind_of(a) {
            SubKind::AsyncTrait => SubAttribute::AsyncTrait(a),
            SubKind::Automock => SubAttribute::Automock(a),
            SubKind::Other => SubAttribute::Other(a),
        };
        r.push(s);
        proof {
            assert(r@.drop_last() =~= before);
            assert(r@.last() == s);
            assert(s.tokens() == *a);
            if has_async_trait(r@) {
                let k = choose|k: int| 0 <= k < r@.len() && #[trigger] r@[k] is AsyncTrait;
                if k < i {
                    assert(before[k] is AsyncTrait);
                    assert(classified(before[k], av[k]));
                    assert(t[k] == av[k]);
                    assert(sub_kind(tv(t[k]@)) == SubKind::AsyncTrait);
                } else {
                    assert(sub_kind(tv(t[i as int]@)) == SubKind::AsyncTrait);
                }
            }
            if attrs_async(t) {
                let k = choose|k: int| 0 <= k < t.len() && sub_kind(tv(#[trigger] t[k]@)) == SubKind::AsyncTrait;
                if k < i {
                    assert(av.take(i as int)[k] == t[k]);
                    assert(attrs_async(av.take(i as int)));
                    let k2 = choose|k2: int| 0 <= k2 < before.len() && #[trigger] before[k2] is AsyncTrait;
                    assert(r@[k2] is AsyncTrait);
                } else {
                    assert(r@[i as int] is AsyncTrait);
                }
            }
        }
        i = i + 1;
    }
    assert(av.take(attributes@.len() as int) =~= av);
    r
}

/// The async-trait attributes among `subs`.
pub fn async_trait_subs<'t>(subs: &Vec<SubAttribute<'t>>) -> (r: Vec<SubAttribute<'t>>)
    ensures
        trait_level_subs(r@) == impl_level_subs(subs@),
        impl_level_subs(r@) == impl_level_subs(subs@),
        has_async_trait(r@) == has_async_trait(subs@),
{
    let mut r: Vec<SubAttribute<'t>> = Vec::new();
    let mut i: usize = 0;
    let ghost sv = subs@;
    assert(sv.take(0) =~= Seq::<SubAttribute>::empty());
    assert(r@ =~= Seq::<SubAttribute>::empty());
    while i < subs.len()
        invariant
            i <= subs@.len(),
            sv == subs@,
            forall|j: int| 0 <= j < r@.len() ==> #[trigger] r@[j] is AsyncTrait,
            trait_level_subs(r@) == impl_level_subs(sv.take(i as int)),
            impl_level_subs(r@) == impl_level_subs(sv.take(i as int)),
            has_async_trait(r@) == has_async_trait(sv.take(i as int)),
        decreases subs@.len() - i,
    {
        let ghost t = sv.take(i + 1);
        assert(t.drop_last() =~= sv.take(i as int));
        assert(t.last() == subs@[i as int]);
        let ghost before = r@;
        match &subs[i] {
            SubAttribute::AsyncTrait(a) => {
                r.push(SubAttribute::AsyncTrait(a));
                proof {
                    assert(r@.drop_last() =~= before);
                    assert(has_async_trait(r@)) by { assert(r@[r@.len() - 1] is AsyncTrait); }
                    assert(has_async_trait(t)) by { assert(t[i as int] is AsyncTrait); }
                }
            },
            _ => {
                proof {
                    if has_async_trait(t) {
                        let k = choose|k: int| 0 <= k < t.len() && #[trigger] t[k] is AsyncTrait;
                        assert(k < i);
                        assert(sv.take(i as int)[k] == t[k]);
                    }
                    if has_async_trait(sv.take(i as int)) {
                        let k = choose|k: int| 0 <= k < sv.take(i as int).len() && #[trigger] sv.take(i as int)[k] is AsyncTrait;
                        assert(t[k] == sv.take(i as int)[k]);
                    }
                }
            },
        }
        i = i + 1;
    }
    assert(sv.take(subs@.len() as int) =~= sv);
    r
}

pub open spec fn has_async_trait(subs: Seq<SubAttribute>) -> bool {
    exists|i: int| 0 <= i < subs.len() && #[trigger] subs[i] is AsyncTrait
}

pub fn contains_async_trait(subs: &Vec<SubAttribute>) -> (r: bool)
    ensures
        r == has_async_trait(subs@),
{
    let mut i: usize = 0;
    while i < subs.len()
        invariant
            i <= subs@.len(),
            forall|j: int| 0 <= j < i ==> !(#[trigger] subs@[j] is AsyncTrait),
        decreases subs@.len() - i,
    {
        match &subs[i] {
            SubAttribute::AsyncTrait(_) => {
                return true;
            },
            _ => {},
        }
        i = i + 1;
    }
    false
}

} // verus!
