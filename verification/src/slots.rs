//! Where the lifetimes of a type sit: each lifetime, and each reference, gets a slot.

use vstd::prelude::*;
use crate::model::{LifetimeSlot, SlotKind, SlotV, slots_view};
use crate::tokens::{Tok, TokV, TokKindV, TokenKind, tv};

verus! {

/// The slot marker for slot `k`.
pub open spec fn slot_v(k: nat, t: TokV) -> TokV {
    TokV { kind: TokKindV::Slot(k as usize), span: t.span }
}

/// The tokens of a type from position `i` on, with `base` slots given out before: a lifetime
/// becomes a slot marker for a named slot; a `&` is followed by a slot marker for a reference
/// slot, which takes the lifetime written right after the `&`, if there is one.
pub open spec fn slots_from(t: Seq<TokV>, i: int, base: nat) -> (Seq<TokV>, Seq<SlotV>)
    decreases t.len() - i,
{
    if i < 0 || i >= t.len() {
        (Seq::empty(), Seq::empty())
    } else {
        match t[i].kind {
            TokKindV::Lifetime(n) => {
                let r = slots_from(t, i + 1, base + 1);
                (seq![slot_v(base, t[i])] + r.0, seq![SlotV { kind: SlotKind::Named, name: Some(n) }] + r.1)
            },
            TokKindV::Punct('&', _) => {
                let named = i + 1 < t.len() && t[i + 1].kind is Lifetime;
                let next = if named { i + 2 } else { i + 1 };
                let name = if named { Some(t[i + 1].kind->Lifetime_0) } else { None };
                let r = slots_from(t, next, base + 1);
                (seq![t[i], slot_v(base, t[i])] + r.0, seq![SlotV { kind: SlotKind::Reference, name }] + r.1)
            },
            _ => {
                let r = slots_from(t, i + 1, base);
                (seq![t[i]] + r.0, r.1)
            },
        }
    }
}

/// The slots of a whole type's tokens.
pub open spec fn spec_slots(t: Seq<TokV>) -> (Seq<TokV>, Seq<SlotV>) {
    slots_from(t, 0, 0)
}

proof fn lemma_slots_len(t: Seq<TokV>, i: int, base: nat)
    ensures
        slots_from(t, i, base).1.len() <= if 0 <= i <= t.len() { t.len() - i } else { 0 },
    decreases t.len() - i,
{
    if 0 <= i < t.len() {
        match t[i].kind {
            TokKindV::Lifetime(_) => lemma_slots_len(t, i + 1, base + 1),
            TokKindV::Punct('&', _) => {
                let named = i + 1 < t.len() && t[i + 1].kind is Lifetime;
                let next = if named { i + 2 } else { i + 1 };
                lemma_slots_len(t, next, base + 1);
            },
            _ => lemma_slots_len(t, i + 1, base),
        }
    }
}

/// Puts a slot in place of each lifetime of a type's tokens, and after each `&`.
pub fn slot_tokens(toks: &Vec<Tok>) -> (r: (Vec<Tok>, Vec<LifetimeSlot>))
    ensures
        (tv(r.0@), slots_view(r.1@)) == spec_slots(tv(toks@)),
{
    let ghost t = tv(toks@);
    let n = toks.len();
    let mut out: Vec<Tok> = Vec::new();
    let mut slots: Vec<LifetimeSlot> = Vec::new();
    let mut i: usize = 0;
    proof { lemma_slots_len(t, 0, 0); }
    assert(tv(out@) + slots_from(t, 0, 0).0 =~= spec_slots(t).0);
    assert(slots_view(slots@) + slots_from(t, 0, 0).1 =~= spec_slots(t).1);
    while i < n
        invariant
            t == tv(toks@),
            n == toks@.len(),
            i <= n,
            slots@.len() <= i,
            tv(out@) + slots_from(t, i as int, slots@.len() as nat).0 == spec_slots(t).0,
            slots_view(slots@) + slots_from(t, i as int, slots@.len() as nat).1 == spec_slots(t).1,
        decreases n - i,
    {
        let ghost base = slots@.len() as nat;
        let ghost o0 = tv(out@);
        let ghost s0 = slots_view(slots@);
        let k = slots.len();
        match &toks[i].kind {
            TokenKind::Lifetime(name) => {
                let ghost r = slots_from(t, i + 1, base + 1);
                out.push(Tok { kind: TokenKind::Slot(k), span: toks[i].span });
                slots.push(LifetimeSlot { kind: SlotKind::Named, name: Some(name.clone()) });
                assert(tv(out@) =~= o0 + seq![slot_v(base, t[i as int])]);
                assert(slots_view(slots@) =~= s0 + seq![SlotV { kind: SlotKind::Named, name: Some(name@) }]);
                assert(o0 + (seq![slot_v(base, t[i as int])] + r.0) =~= (o0 + seq![slot_v(base, t[i as int])]) + r.0);
                assert(s0 + (seq![SlotV { kind: SlotKind::Named, name: Some(name@) }] + r.1)
                    =~= (s0 + seq![SlotV { kind: SlotKind::Named, name: Some(name@) }]) + r.1);
                i = i + 1;
            },
            TokenKind::Punct('&', _) => {
                let named = i + 1 < n && match &toks[i + 1].kind {
                    TokenKind::Lifetime(_) => true,
                    _ => false,
                };
                let next = if named { i + 2 } else { i + 1 };
                let name = if named {
                    match &toks[i + 1].kind {
                        TokenKind::Lifetime(s) => Some(s.clone()),
                        _ => None,
                    }
                } else {
                    None
                };
                let ghost sname: Option<Seq<char>> = if named { Some(t[i + 1].kind->Lifetime_0) } else { None };
                assert(match name { Some(x) => Some(x@), None => None } == sname);
                let ghost r = slots_from(t, next as int, base + 1);
                let span = toks[i].span;
                out.push(toks[i].duplicate());
                out.push(Tok { kind: TokenKind::Slot(k), span });
                slots.push(LifetimeSlot { kind: SlotKind::Reference, name });
                assert(tv(out@) =~= o0 + seq![t[i as int], slot_v(base, t[i as int])]);
                assert(slots_view(slots@) =~= s0 + seq![SlotV { kind: SlotKind::Reference, name: sname }]);
                assert(o0 + (seq![t[i as int], slot_v(base, t[i as int])] + r.0) =~= (o0 + seq![t[i as int], slot_v(base, t[i as int])]) + r.0);
                assert(s0 + (seq![SlotV { kind: SlotKind::Reference, name: sname }] + r.1)
                    =~= (s0 + seq![SlotV { kind: SlotKind::Reference, name: sname }]) + r.1);
                i = next;
            },
            _ => {
                let ghost r = slots_from(t, i + 1, base);
                out.push(toks[i].duplicate());
                assert(tv(out@) =~= o0 + seq![t[i as int]]);
                assert(o0 + (seq![t[i as int]] + r.0) =~= (o0 + seq![t[i as int]]) + r.0);
                i = i + 1;
            },
        }
    }
    assert(tv(out@) =~= spec_slots(t).0);
    assert(slots_view(slots@) =~= spec_slots(t).1);
    (out, slots)
}

} // verus!
