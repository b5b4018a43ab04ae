//! Makes the lifetimes of a signature explicit, and gathers them.

use vstd::prelude::*;
use crate::model::{FnArg, LifetimeSlot, SlotKind, SlotV, TypeModel};
use crate::signature::{EntraitLifetime, EntraitSignature, EtV, ReceiverGeneration, SigComponent, UsedInOutput, UserProvidedLifetime, ets_view};
use crate::text::{decimal, decimal_string, owned, str_eq, contains_string, copy_string};
use crate::fn_params::name_set;

verus! {

/// The lifetimes gathered so far, and the user lifetimes already registered.
pub struct LtState {
    pub ets: Seq<EtV>,
    pub registered: Set<Seq<char>>,
}

/// `entrait<i>`: the name of the lifetime made up at position `i`.
pub open spec fn entrait_name(i: nat) -> Seq<char> {
    seq!['e', 'n', 't', 'r', 'a', 'i', 't'] + decimal(i)
}

/// `entrait_broken`: stands for an output lifetime that could not be found.
pub open spec fn broken_name() -> Seq<char> {
    seq!['e', 'n', 't', 'r', 'a', 'i', 't', '_', 'b', 'r', 'o', 'k', 'e', 'n']
}

pub open spec fn underscore_name() -> Seq<char> {
    seq!['_']
}

/// Making a lifetime of an input explicit: a left-out lifetime gets a new name; a named one is
/// registered the first time it is seen.
pub open spec fn input_step(st: LtState, c: SigComponent, name: Option<Seq<char>>) -> (LtState, Seq<char>) {
    match name {
        None => {
            let n = entrait_name(st.ets.len());
            (
                LtState {
                    ets: st.ets.push(EtV { lifetime: n, source: c, user_provided: false, used_in_output: false }),
                    registered: st.registered,
                },
                n,
            )
        },
        Some(n) => if st.registered.contains(n) {
            (st, n)
        } else {
            (
                LtState {
                    ets: st.ets.push(EtV { lifetime: n, source: c, user_provided: true, used_in_output: false }),
                    registered: st.registered.insert(n),
                },
                n,
            )
        },
    }
}

pub open spec fn is_first_named(ets: Seq<EtV>, n: Seq<char>, i: int) -> bool {
    &&& 0 <= i < ets.len()
    &&& ets[i].lifetime == n
    &&& forall|j: int| 0 <= j < i ==> #[trigger] ets[j].lifetime != n
}

pub open spec fn is_first_from(ets: Seq<EtV>, c: SigComponent, i: int) -> bool {
    &&& 0 <= i < ets.len()
    &&& ets[i].source == c
    &&& forall|j: int| 0 <= j < i ==> #[trigger] ets[j].source != c
}

/// Marks the lifetime at `i` as used in the output.
pub open spec fn tag(ets: Seq<EtV>, i: int) -> Seq<EtV> {
    ets.update(
        i,
        EtV {
            lifetime: ets[i].lifetime,
            source: ets[i].source,
            user_provided: ets[i].user_provided,
            used_in_output: true,
        },
    )
}

/// Making a lifetime of the output explicit: a named one is marked as used; a left-out one
/// becomes the first lifetime that came from `target`, or `entrait_broken` if there is none.
pub open spec fn output_step(st: LtState, target: SigComponent, name: Option<Seq<char>>) -> (LtState, Seq<char>) {
    match name {
        Some(n) => if exists|i: int| is_first_named(st.ets, n, i) {
            let i = choose|i: int| is_first_named(st.ets, n, i);
            (LtState { ets: tag(st.ets, i), registered: st.registered }, n)
        } else {
            (st, n)
        },
        None => if exists|i: int| is_first_from(st.ets, target, i) {
            let i = choose|i: int| is_first_from(st.ets, target, i);
            (LtState { ets: tag(st.ets, i), registered: st.registered }, st.ets[i].lifetime)
        } else {
            (st, broken_name())
        },
    }
}

pub open spec fn step(st: LtState, c: SigComponent, target: SigComponent, name: Option<Seq<char>>) -> (LtState, Seq<char>) {
    if c == SigComponent::Output {
        output_step(st, target, name)
    } else {
        input_step(st, c, name)
    }
}

/// Runs over the slots of one component, in order.
pub open spec fn run_slots(st: LtState, c: SigComponent, target: SigComponent, slots: Seq<SlotV>) -> (LtState, Seq<Seq<char>>)
    decreases slots.len(),
{
    if slots.len() == 0 {
        (st, Seq::empty())
    } else {
        let r = run_slots(st, c, target, slots.drop_last());
        let s = step(r.0, c, target, slots.last().name);
        (s.0, r.1.push(s.1))
    }
}

pub open spec fn slot_views(s: Seq<LifetimeSlot>) -> Seq<SlotV> {
    s.map_values(|x: LifetimeSlot| x@)
}

/// The lifetime slots of a parameter, in visiting order.
pub open spec fn ref_slots(r: Option<LifetimeSlot>) -> Seq<SlotV> {
    match r {
        Some(r) => seq![r@],
        None => Seq::empty(),
    }
}

pub open spec fn output_slots(output: Option<TypeModel>) -> Seq<SlotV> {
    match output {
        Some(t) => slot_views(t.slots@),
        None => Seq::empty(),
    }
}

/// The lifetime slots of a parameter, in visiting order.
pub open spec fn arg_slots(a: FnArg) -> Seq<SlotV> {
    match a {
        FnArg::Receiver { reference, self_ty, .. } => ref_slots(reference) + output_slots(self_ty),
        FnArg::Typed { ty, .. } => slot_views(ty.slots@),
    }
}

pub open spec fn slot_elided(s: SlotV) -> bool {
    ||| (s.kind == SlotKind::Reference && s.name is None)
    ||| s.name == Some(underscore_name())
}

/// Whether a parameter has a left-out or anonymous lifetime. A receiver reference counts
/// when its lifetime is left out (`&self`) or written `'_`, as its type `&Self` would.
pub open spec fn arg_elided(a: FnArg) -> bool {
    match a {
        FnArg::Receiver { reference, self_ty, .. } => {
            ||| (reference matches Some(r) && slot_elided(r@))
            ||| (self_ty matches Some(t) && exists|i: int| 0 <= i < t.slots@.len() && #[trigger] slot_elided(t.slots@[i]@))
        },
        FnArg::Typed { ty, .. } => exists|i: int| 0 <= i < ty.slots@.len() && #[trigger] slot_elided(ty.slots@[i]@),
    }
}

/// The component of the parameter at position `k`.
pub open spec fn component_of(k: nat, rg: ReceiverGeneration) -> SigComponent {
    if rg == ReceiverGeneration::Unchanged {
        SigComponent::Param(k as usize)
    } else if k == 0 {
        SigComponent::Receiver
    } else {
        SigComponent::Param((k - 1) as usize)
    }
}

/// The parameters found to have left-out lifetimes. With a generated receiver, the receiver
/// at position 0 is not looked at, and each later parameter is counted one less, so that it
/// gets the index its lifetimes are made explicit under.
pub open spec fn elided_list(args: Seq<FnArg>, rg: ReceiverGeneration) -> Seq<nat>
    decreases args.len(),
{
    if args.len() == 0 {
        Seq::empty()
    } else {
        let r = elided_list(args.drop_last(), rg);
        let k = (args.len() - 1) as nat;
        if rg == ReceiverGeneration::Unchanged {
            if arg_elided(args.last()) { r.push(k) } else { r }
        } else if k >= 1 && arg_elided(args.last()) {
            r.push((k - 1) as nat)
        } else {
            r
        }
    }
}

/// The component whose first lifetime a left-out output lifetime takes: the only parameter
/// with left-out lifetimes if there is exactly one, else the receiver.
pub open spec fn output_target(elided: Seq<nat>) -> SigComponent {
    if elided.len() == 1 {
        SigComponent::Param(elided[0] as usize)
    } else {
        SigComponent::Receiver
    }
}

/// Runs over the parameters, in order.
pub open spec fn run_args(st: LtState, rg: ReceiverGeneration, target: SigComponent, args: Seq<FnArg>) -> (LtState, Seq<Seq<Seq<char>>>)
    decreases args.len(),
{
    if args.len() == 0 {
        (st, Seq::empty())
    } else {
        let r = run_args(st, rg, target, args.drop_last());
        let s = run_slots(r.0, component_of((args.len() - 1) as nat, rg), target, arg_slots(args.last()));
        (s.0, r.1.push(s.1))
    }
}

/// The slots with the given names filled in.
pub open spec fn named(slots: Seq<SlotV>, names: Seq<Seq<char>>) -> Seq<SlotV> {
    Seq::new(slots.len(), |i: int| SlotV { kind: slots[i].kind, name: Some(names[i]) })
}

/// The two types agree but for the names of their lifetime slots.
pub open spec fn same_but_slot_names(a: TypeModel, b: TypeModel) -> bool {
    &&& a.shape == b.shape
    &&& a.tokens == b.tokens
    &&& a.span == b.span
    &&& a.slots@.len() == b.slots@.len()
    &&& forall|i: int| 0 <= i < a.slots@.len() ==> (#[trigger] b.slots@[i]).kind == a.slots@[i].kind
}

pub open spec fn same_but_lifetimes(a: FnArg, b: FnArg) -> bool {
    match (a, b) {
        (FnArg::Receiver { reference: r1, mutable: m1, self_ty: t1, span: s1 }, FnArg::Receiver { reference: r2, mutable: m2, self_ty: t2, span: s2 }) => {
            &&& m1 == m2
            &&& s1 == s2
            &&& r1.is_some() == r2.is_some()
            &&& (r1 matches Some(x) ==> r2->0.kind == x.kind)
            &&& t1.is_some() == t2.is_some()
            &&& (t1 matches Some(x) ==> same_but_slot_names(x, t2->0))
        },
        (FnArg::Typed { attrs: a1, pat: p1, ty: t1 }, FnArg::Typed { attrs: a2, pat: p2, ty: t2 }) => {
            &&& a1 == a2
            &&& p1 == p2
            &&& same_but_slot_names(t1, t2)
        },
        _ => false,
    }
}

/// The gatherer of lifetimes.
pub struct LifetimeMutVisitor {
    pub current_component: SigComponent,
    pub elided_params: Vec<usize>,
    pub registered_user_lifetimes: Vec<String>,
    pub et_lifetimes: Vec<EntraitLifetime>,
}

impl LifetimeMutVisitor {
    pub open spec fn state(&self) -> LtState {
        LtState { ets: ets_view(self.et_lifetimes@), registered: name_set(self.registered_user_lifetimes@) }
    }

    pub open spec fn target(&self) -> SigComponent {
        output_target(self.elided_params@.map_values(|i: usize| i as nat))
    }

    pub fn new(elided_params: Vec<usize>) -> (v: LifetimeMutVisitor)
        ensures
            v.current_component == SigComponent::Receiver,
            v.elided_params == elided_params,
            v.state() == (LtState { ets: Seq::empty(), registered: Set::empty() }),
    {
        let v = LifetimeMutVisitor {
            current_component: SigComponent::Receiver,
            elided_params,
            registered_user_lifetimes: Vec::new(),
            et_lifetimes: Vec::new(),
        };
        assert(v.state().ets =~= Seq::empty());
        assert(v.state().registered =~= Set::empty());
        v
    }

    fn only_elided_input(&self) -> (r: Option<usize>)
        ensures
            self.target() == (match r {
                Some(i) => SigComponent::Param(i),
                None => SigComponent::Receiver,
            }),
    {
        if self.elided_params.len() == 1 {
            Some(self.elided_params[0])
        } else {
            None
        }
    }

    fn register_lifetime(&mut self, et: EntraitLifetime) -> (r: String)
        ensures
            r@ == et.lifetime@,
            ets_view(final(self).et_lifetimes@) == ets_view(old(self).et_lifetimes@).push(et@),
            final(self).registered_user_lifetimes == old(self).registered_user_lifetimes,
            final(self).elided_params == old(self).elided_params,
            final(self).current_component == old(self).current_component,
    {
        let r = copy_string(&et.lifetime);
        let ghost before = self.et_lifetimes@;
        self.et_lifetimes.push(et);
        assert(ets_view(self.et_lifetimes@) =~= ets_view(before).push(et@));
        r
    }

    fn register_new_entrait_lifetime(&mut self) -> (r: String)
        ensures
            (final(self).state(), r@) == input_step(old(self).state(), old(self).current_component, None),
            final(self).elided_params == old(self).elided_params,
            final(self).current_component == old(self).current_component,
    {
        let index = self.et_lifetimes.len();
        proof { reveal_strlit("entrait"); }
        let mut name = owned("entrait");
        let d = decimal_string(index);
        name.append(d.as_str());
        assert(name@ =~= entrait_name(index as nat));
        self.register_lifetime(EntraitLifetime {
            lifetime: name,
            source: self.current_component,
            user_provided: UserProvidedLifetime(false),
            used_in_output: UsedInOutput(false),
        })
    }

    fn register_user_lifetime(&mut self, lifetime: String) -> (r: String)
        ensures
            (final(self).state(), r@) == input_step(old(self).state(), old(self).current_component, Some(lifetime@)),
            final(self).elided_params == old(self).elided_params,
            final(self).current_component == old(self).current_component,
    {
        if contains_string(&self.registered_user_lifetimes, &lifetime) {
            assert(self.state().registered.contains(lifetime@));
            lifetime
        } else {
            proof {
                if self.state().registered.contains(lifetime@) {
                    let j = choose|j: int| 0 <= j < self.registered_user_lifetimes@.len() && #[trigger] self.registered_user_lifetimes@[j]@ == lifetime@;
                    assert(self.registered_user_lifetimes@[j]@ == lifetime@);
                }
            }
            let ghost before = self.registered_user_lifetimes@;
            let copied = copy_string(&lifetime);
            self.registered_user_lifetimes.push(copied);
            proof { lemma_name_set_push(before, copied); }
            self.register_lifetime(EntraitLifetime {
                lifetime,
                source: self.current_component,
                user_provided: UserProvidedLifetime(true),
                used_in_output: UsedInOutput(false),
            })
        }
    }

    fn set_used(&mut self, i: usize)
        requires
            i < old(self).et_lifetimes@.len(),
        ensures
            final(self).state() == (LtState { ets: tag(old(self).state().ets, i as int), registered: old(self).state().registered }),
            final(self).elided_params == old(self).elided_params,
            final(self).current_component == old(self).current_component,
            final(self).registered_user_lifetimes == old(self).registered_user_lifetimes,
    {
        let ghost before = ets_view(self.et_lifetimes@);
        let mut ets: Vec<EntraitLifetime> = Vec::new();
        std::mem::swap(&mut ets, &mut self.et_lifetimes);
        let et = ets.remove(i);
        let tagged = EntraitLifetime {
            lifetime: et.lifetime,
            source: et.source,
            user_provided: et.user_provided,
            used_in_output: UsedInOutput(true),
        };
        ets.insert(i, tagged);
        self.et_lifetimes = ets;
        assert(ets_view(self.et_lifetimes@) =~= tag(before, i as int));
    }

    fn tag_used_in_output(&mut self, lifetime: &String)
        ensures
            final(self).state() == output_step(old(self).state(), old(self).target(), Some(lifetime@)).0,
            final(self).elided_params == old(self).elided_params,
            final(self).current_component == old(self).current_component,
    {
        let ghost st = self.state();
        let mut i: usize = 0;
        while i < self.et_lifetimes.len()
            invariant
                i <= self.et_lifetimes@.len(),
                st == self.state(),
                st == old(self).state(),
                self.elided_params == old(self).elided_params,
                self.current_component == old(self).current_component,
                forall|j: int| 0 <= j < i ==> #[trigger] st.ets[j].lifetime != lifetime@,
            decreases self.et_lifetimes@.len() - i,
        {
            if str_eq(self.et_lifetimes[i].lifetime.as_str(), lifetime.as_str()) {
                proof {
                    assert(is_first_named(st.ets, lifetime@, i as int));
                    let c = choose|c: int| is_first_named(st.ets, lifetime@, c);
                    lemma_first_named_unique(st.ets, lifetime@, i as int, c);
                }
                self.set_used(i);
                return;
            }
            i = i + 1;
        }
        proof {
            if exists|c: int| is_first_named(st.ets, lifetime@, c) {
                let c = choose|c: int| is_first_named(st.ets, lifetime@, c);
                assert(st.ets[c].lifetime == lifetime@);
            }
        }
    }

    fn locate_output_lifetime(&mut self) -> (r: Option<String>)
        ensures
            r is Some == exists|i: int| is_first_from(old(self).state().ets, old(self).target(), i),
            r is Some ==> (final(self).state(), r->0@) == output_step(old(self).state(), old(self).target(), None),
            r is None ==> final(self).state() == old(self).state(),
            final(self).elided_params == old(self).elided_params,
            final(self).current_component == old(self).current_component,
    {
        let from_component = match self.only_elided_input() {
            Some(elided_input) => SigComponent::Param(elided_input),
            None => SigComponent::Receiver,
        };
        let ghost st = self.state();
        let mut i: usize = 0;
        while i < self.et_lifetimes.len()
            invariant
                i <= self.et_lifetimes@.len(),
                st == self.state(),
                st == old(self).state(),
                self.elided_params == old(self).elided_params,
                self.current_component == old(self).current_component,
                from_component == self.target(),
                forall|j: int| 0 <= j < i ==> #[trigger] st.ets[j].source != from_component,
            decreases self.et_lifetimes@.len() - i,
        {
            if self.et_lifetimes[i].source == from_component {
                proof {
                    assert(is_first_from(st.ets, from_component, i as int));
                    let c = choose|c: int| is_first_from(st.ets, from_component, c);
                    lemma_first_from_unique(st.ets, from_component, i as int, c);
                }
                let r = copy_string(&self.et_lifetimes[i].lifetime);
                self.set_used(i);
                return Some(r);
            }
            i = i + 1;
        }
        proof {
            if exists|c: int| is_first_from(st.ets, from_component, c) {
                let c = choose|c: int| is_first_from(st.ets, from_component, c);
                assert(st.ets[c].source == from_component);
            }
        }
        None
    }

    fn broken_lifetime(&self) -> (r: String)
        ensures
            r@ == broken_name(),
    {
        proof { reveal_strlit("entrait_broken"); }
        let r = owned("entrait_broken");
        assert(r@ =~= broken_name());
        r
    }

    /// Makes one lifetime explicit, registering it.
    pub fn make_lifetime_explicit(&mut self, lifetime: Option<String>) -> (r: String)
        ensures
            (final(self).state(), r@) == step(old(self).state(), old(self).current_component, old(self).target(),
                match lifetime { Some(l) => Some(l@), None => None }),
            final(self).elided_params == old(self).elided_params,
            final(self).current_component == old(self).current_component,
    {
        match self.current_component {
            SigComponent::Output => {
                match lifetime {
                    Some(lifetime) => {
                        self.tag_used_in_output(&lifetime);
                        lifetime
                    },
                    None => match self.locate_output_lifetime() {
                        Some(l) => l,
                        None => self.broken_lifetime(),
                    },
                }
            },
            _ => match lifetime {
                Some(lifetime) => self.register_user_lifetime(lifetime),
                None => self.register_new_entrait_lifetime(),
            },
        }
    }

    /// Makes every slot explicit, in order.
    fn de_elide_slots(&mut self, slots: Vec<LifetimeSlot>) -> (r: Vec<LifetimeSlot>)
        ensures
            final(self).state() == run_slots(old(self).state(), old(self).current_component, old(self).target(), slot_views(slots@)).0,
            slot_views(r@) == named(slot_views(slots@), run_slots(old(self).state(), old(self).current_component, old(self).target(), slot_views(slots@)).1),
            final(self).elided_params == old(self).elided_params,
            final(self).current_component == old(self).current_component,
    {
        let ghost st0 = self.state();
        let ghost c = self.current_component;
        let ghost target = self.target();
        let ghost sv = slot_views(slots@);
        let n = slots.len();
        let mut rest = slots;
        let mut out: Vec<LifetimeSlot> = Vec::new();
        let mut i: usize = 0;
        while i < n
            invariant
                n == sv.len(),
                i <= n,
                rest@.len() == n - i,
                forall|j: int| 0 <= j < n - i ==> #[trigger] rest@[j]@ == sv[j + i],
                c == self.current_component,
                target == self.target(),
                self.elided_params == old(self).elided_params,
                self.state() == run_slots(st0, c, target, sv.take(i as int)).0,
                slot_views(out@) == named(sv.take(i as int), run_slots(st0, c, target, sv.take(i as int)).1),
            decreases n - i,
        {
            let slot = rest.remove(0);
            assert(slot@ == sv[i as int]);
            let ghost t = sv.take(i + 1);
            assert(t.drop_last() =~= sv.take(i as int));
            assert(t.last() == sv[i as int]);
            let ghost prev = run_slots(st0, c, target, sv.take(i as int));
            let ghost nm = slot@.name;
            let name = self.make_lifetime_explicit(slot.name);
            let ghost before = out@;
            out.push(LifetimeSlot { kind: slot.kind, name: Some(name) });
            proof {
                lemma_run_slots_len(st0, c, target, sv.take(i as int));
                let sres = step(prev.0, c, target, nm);
                assert(nm == t.last().name);
                assert(run_slots(st0, c, target, t) == (sres.0, prev.1.push(sres.1)));
                assert(out@.last()@ == SlotV { kind: t.last().kind, name: Some(sres.1) });
                assert(slot_views(out@) =~= slot_views(before).push(out@.last()@));
                let nt = named(t, prev.1.push(sres.1));
                assert forall|j: int| 0 <= j < i implies nt[j] == named(sv.take(i as int), prev.1)[j] by {}
                assert(slot_views(out@) =~= named(t, run_slots(st0, c, target, t).1));
            }
            i = i + 1;
        }
        assert(sv.take(n as int) =~= sv);
        out
    }
}

pub(crate) proof fn lemma_run_slots_len(st: LtState, c: SigComponent, target: SigComponent, slots: Seq<SlotV>)
    ensures
        run_slots(st, c, target, slots).1.len() == slots.len(),
    decreases slots.len(),
{
    if slots.len() > 0 {
        lemma_run_slots_len(st, c, target, slots.drop_last());
    }
}

proof fn lemma_first_named_unique(ets: Seq<EtV>, n: Seq<char>, a: int, b: int)
    requires
        is_first_named(ets, n, a),
        is_first_named(ets, n, b),
    ensures
        a == b,
{
    if a < b {
        assert(ets[a].lifetime != n);
    } else if b < a {
        assert(ets[b].lifetime != n);
    }
}

proof fn lemma_first_from_unique(ets: Seq<EtV>, c: SigComponent, a: int, b: int)
    requires
        is_first_from(ets, c, a),
        is_first_from(ets, c, b),
    ensures
        a == b,
{
    if a < b {
        assert(ets[a].source != c);
    } else if b < a {
        assert(ets[b].source != c);
    }
}

proof fn lemma_name_set_push(v: Seq<String>, s: String)
    ensures
        name_set(v.push(s)) == name_set(v).insert(s@),
{
    assert forall|x: Seq<char>| name_set(v.push(s)).contains(x) == #[trigger] name_set(v).insert(s@).contains(x) by {
        if name_set(v.push(s)).contains(x) {
            let j = choose|j: int| 0 <= j < v.push(s).len() && #[trigger] v.push(s)[j]@ == x;
            if j < v.len() {
                assert(v[j]@ == x);
            }
        }
        if name_set(v).contains(x) {
            let j = choose|j: int| 0 <= j < v.len() && #[trigger] v[j]@ == x;
            assert(v.push(s)[j]@ == x);
        }
        if x == s@ {
            assert(v.push(s)[v.len() as int]@ == x);
        }
    }
    assert(name_set(v.push(s)) =~= name_set(v).insert(s@));
}


proof fn lemma_run_slots_concat(st: LtState, c: SigComponent, target: SigComponent, a: Seq<SlotV>, b: Seq<SlotV>)
    ensures
        run_slots(st, c, target, a + b) == ({
            let ra = run_slots(st, c, target, a);
            let rb = run_slots(ra.0, c, target, b);
            (rb.0, ra.1 + rb.1)
        }),
    decreases b.len(),
{
    if b.len() == 0 {
        assert(a + b =~= a);
        assert(run_slots(st, c, target, a).1 + Seq::<Seq<char>>::empty() =~= run_slots(st, c, target, a).1);
    } else {
        assert((a + b).drop_last() =~= a + b.drop_last());
        assert((a + b).last() == b.last());
        lemma_run_slots_concat(st, c, target, a, b.drop_last());
        let ra = run_slots(st, c, target, a);
        let rb = run_slots(ra.0, c, target, b.drop_last());
        let s = step(rb.0, c, target, b.last().name);
        assert(ra.1 + rb.1.push(s.1) =~= (ra.1 + rb.1).push(s.1));
    }
}

proof fn lemma_named_concat(a: Seq<SlotV>, b: Seq<SlotV>, na: Seq<Seq<char>>, nb: Seq<Seq<char>>)
    requires
        na.len() == a.len(),
        nb.len() == b.len(),
    ensures
        named(a + b, na + nb) == named(a, na) + named(b, nb),
{
    let l = named(a + b, na + nb);
    let r = named(a, na) + named(b, nb);
    assert(l.len() == r.len());
    assert forall|i: int| 0 <= i < l.len() implies l[i] == r[i] by {
        if i < a.len() {
            assert((na + nb)[i] == na[i]);
        } else {
            assert((na + nb)[i] == nb[i - a.len()]);
            assert((a + b)[i] == b[i - a.len()]);
        }
    }
    assert(l =~= r);
}

/// Finds the parameters with left-out lifetimes.
pub struct ElisionDetector {
    pub receiver_generation: ReceiverGeneration,
    pub current_input: usize,
    pub elided_params: Vec<usize>,
}

fn type_has_elided(ty: &TypeModel) -> (r: bool)
    ensures
        r == exists|i: int| 0 <= i < ty.slots@.len() && #[trigger] slot_elided(ty.slots@[i]@),
{
    let mut i: usize = 0;
    while i < ty.slots.len()
        invariant
            i <= ty.slots@.len(),
            forall|j: int| 0 <= j < i ==> !#[trigger] slot_elided(ty.slots@[j]@),
        decreases ty.slots@.len() - i,
    {
        if slot_is_elided(&ty.slots[i]) {
            return true;
        }
        i = i + 1;
    }
    false
}

fn is_underscore(s: &String) -> (r: bool)
    ensures
        r == (s@ == underscore_name()),
{
    proof { reveal_strlit("_"); }
    let r = str_eq(s.as_str(), "_");
    assert("_"@ =~= underscore_name());
    r
}

fn slot_is_elided(slot: &LifetimeSlot) -> (r: bool)
    ensures
        r == slot_elided(slot@),
{
    match &slot.name {
        None => slot.kind == SlotKind::Reference,
        Some(n) => is_underscore(n),
    }
}

fn arg_is_elided(arg: &FnArg) -> (r: bool)
    ensures
        r == arg_elided(*arg),
{
    match arg {
        FnArg::Receiver { reference, self_ty, .. } => {
            let by_ref = match reference {
                Some(r) => slot_is_elided(r),
                None => false,
            };
            let by_ty = match self_ty {
                Some(t) => type_has_elided(t),
                None => false,
            };
            by_ref || by_ty
        },
        FnArg::Typed { ty, .. } => type_has_elided(ty),
    }
}

impl ElisionDetector {
    pub fn new(receiver_generation: ReceiverGeneration) -> (d: ElisionDetector)
        ensures
            d.receiver_generation == receiver_generation,
            d.current_input == 0,
            d.elided_params@.len() == 0,
    {
        ElisionDetector { receiver_generation, current_input: 0, elided_params: Vec::new() }
    }

    /// Collects the parameters with left-out lifetimes, after those already collected.
    pub fn detect(&mut self, inputs: &Vec<FnArg>)
        ensures
            final(self).elided_params@.map_values(|i: usize| i as nat)
                == old(self).elided_params@.map_values(|i: usize| i as nat) + elided_list(inputs@, old(self).receiver_generation),
            final(self).receiver_generation == old(self).receiver_generation,
    {
        let rg = self.receiver_generation;
        let mut index: usize = 0;
        let ghost start = self.elided_params@.map_values(|i: usize| i as nat);
        assert(self.elided_params@.map_values(|i: usize| i as nat) =~= start + elided_list(inputs@.take(0), rg));
        while index < inputs.len()
            invariant
                index <= inputs@.len(),
                rg == self.receiver_generation,
                rg == old(self).receiver_generation,
                start == old(self).elided_params@.map_values(|i: usize| i as nat),
                self.elided_params@.map_values(|i: usize| i as nat) == start + elided_list(inputs@.take(index as int), rg),
            decreases inputs@.len() - index,
        {
            let ghost t = inputs@.take(index + 1);
            assert(t.drop_last() =~= inputs@.take(index as int));
            assert(t.last() == inputs@[index as int]);
            let ghost before = self.elided_params@;
            match rg {
                ReceiverGeneration::Unchanged => {
                    self.current_input = index;
                    if arg_is_elided(&inputs[index]) {
                        self.elided_params.push(self.current_input);
                        assert(self.elided_params@.map_values(|i: usize| i as nat) =~= before.map_values(|i: usize| i as nat).push(index as nat));
                        assert(start + elided_list(t, rg) =~= (start + elided_list(inputs@.take(index as int), rg)).push(index as nat));
                    }
                },
                _ => {
                    if index >= 1 {
                        self.current_input = index - 1;
                        if arg_is_elided(&inputs[index]) {
                            self.elided_params.push(self.current_input);
                            assert(self.elided_params@.map_values(|i: usize| i as nat) =~= before.map_values(|i: usize| i as nat).push((index - 1) as nat));
                            assert(start + elided_list(t, rg) =~= (start + elided_list(inputs@.take(index as int), rg)).push((index - 1) as nat));
                        }
                    }
                },
            }
            index = index + 1;
        }
        assert(inputs@.take(inputs@.len() as int) =~= inputs@);
    }
}

/// The empty state a visitor starts from.
pub open spec fn start_state() -> LtState {
    LtState { ets: Seq::empty(), registered: Set::empty() }
}

/// What making the lifetimes of a signature explicit results in: the gathered lifetimes, the
/// names given to the slots of each parameter, and those given to the slots of the output.
pub open spec fn de_elided(args: Seq<FnArg>, output: Seq<SlotV>, rg: ReceiverGeneration) -> (LtState, Seq<Seq<Seq<char>>>, Seq<Seq<char>>) {
    let target = output_target(elided_list(args, rg));
    let ra = run_args(start_state(), rg, target, args);
    let ro = run_slots(ra.0, SigComponent::Output, target, output);
    (ro.0, ra.1, ro.1)
}

impl LifetimeMutVisitor {
    fn de_elide_type(&mut self, ty: TypeModel) -> (r: TypeModel)
        ensures
            final(self).state() == run_slots(old(self).state(), old(self).current_component, old(self).target(), slot_views(ty.slots@)).0,
            slot_views(r.slots@) == named(slot_views(ty.slots@), run_slots(old(self).state(), old(self).current_component, old(self).target(), slot_views(ty.slots@)).1),
            same_but_slot_names(ty, r),
            final(self).elided_params == old(self).elided_params,
            final(self).current_component == old(self).current_component,
    {
        let TypeModel { shape, tokens, slots, span } = ty;
        let ghost sv = slot_views(slots@);
        let new_slots = self.de_elide_slots(slots);
        let r = TypeModel { shape, tokens, slots: new_slots, span };
        proof {
            assert(slot_views(r.slots@).len() == sv.len());
            assert(r.slots@.len() == ty.slots@.len());
            assert forall|i: int| 0 <= i < sv.len() implies (#[trigger] r.slots@[i]).kind == ty.slots@[i].kind by {
                assert(slot_views(r.slots@)[i] == r.slots@[i]@);
                assert(sv[i] == ty.slots@[i]@);
                assert(slot_views(r.slots@)[i].kind == sv[i].kind);
            }
        }
        r
    }

    /// Makes the lifetimes of one parameter explicit.
    fn de_elide_arg(&mut self, arg: FnArg) -> (r: FnArg)
        ensures
            final(self).state() == run_slots(old(self).state(), old(self).current_component, old(self).target(), arg_slots(arg)).0,
            arg_slots(r) == named(arg_slots(arg), run_slots(old(self).state(), old(self).current_component, old(self).target(), arg_slots(arg)).1),
            same_but_lifetimes(arg, r),
            final(self).elided_params == old(self).elided_params,
            final(self).current_component == old(self).current_component,
    {
        let ghost st0 = self.state();
        let ghost c = self.current_component;
        let ghost target = self.target();
        match arg {
            FnArg::Receiver { reference, mutable, self_ty, span } => {
                let ghost a = ref_slots(reference);
                let ghost b = output_slots(self_ty);
                let new_ref = match reference {
                    Some(slot) => {
                        let kind = slot.kind;
                        let name = self.make_lifetime_explicit(slot.name);
                        Some(LifetimeSlot { kind, name: Some(name) })
                    },
                    None => None,
                };
                let ghost st1 = self.state();
                proof {
                    reveal_with_fuel(run_slots, 2);
                    assert(seq![Seq::<char>::empty()].len() == 1);
                    if a.len() == 1 {
                        assert(a.drop_last() =~= Seq::<SlotV>::empty());
                    }
                    lemma_run_slots_len(st0, c, target, a);
                }
                let new_ty = match self_ty {
                    Some(t) => Some(self.de_elide_type(t)),
                    None => None,
                };
                proof {
                    lemma_run_slots_concat(st0, c, target, a, b);
                    let ra = run_slots(st0, c, target, a);
                    let rb = run_slots(ra.0, c, target, b);
                    let a2 = ref_slots(new_ref);
                    let b2 = output_slots(new_ty);
                    assert(a2 =~= named(a, ra.1));
                    if self_ty is None {
                        assert(b2 =~= named(b, rb.1));
                    }
                    lemma_run_slots_len(st0, c, target, a);
                    lemma_run_slots_len(ra.0, c, target, b);
                    lemma_named_concat(a, b, ra.1, rb.1);
                }
                FnArg::Receiver { reference: new_ref, mutable, self_ty: new_ty, span }
            },
            FnArg::Typed { attrs, pat, ty } => {
                let new_ty = self.de_elide_type(ty);
                FnArg::Typed { attrs, pat, ty: new_ty }
            },
        }
    }
}

proof fn lemma_run_args_len(st: LtState, rg: ReceiverGeneration, target: SigComponent, args: Seq<FnArg>)
    ensures
        run_args(st, rg, target, args).1.len() == args.len(),
    decreases args.len(),
{
    if args.len() > 0 {
        lemma_run_args_len(st, rg, target, args.drop_last());
    }
}

/// Makes every lifetime of the signature explicit and appends the gathered lifetimes.
pub fn de_elide_lifetimes(entrait_sig: &mut EntraitSignature, receiver_generation: ReceiverGeneration)
    ensures
        ({
            let r = de_elided(old(entrait_sig).sig.inputs@, output_slots(old(entrait_sig).sig.output), receiver_generation);
            &&& ets_view(final(entrait_sig).et_lifetimes@) == ets_view(old(entrait_sig).et_lifetimes@) + r.0.ets
            &&& final(entrait_sig).sig.inputs@.len() == old(entrait_sig).sig.inputs@.len()
            &&& forall|i: int| 0 <= i < old(entrait_sig).sig.inputs@.len() ==> {
                &&& same_but_lifetimes(old(entrait_sig).sig.inputs@[i], #[trigger] final(entrait_sig).sig.inputs@[i])
                &&& arg_slots(final(entrait_sig).sig.inputs@[i]) == named(arg_slots(old(entrait_sig).sig.inputs@[i]), r.1[i])
            }
            &&& output_slots(final(entrait_sig).sig.output) == named(output_slots(old(entrait_sig).sig.output), r.2)
            &&& final(entrait_sig).sig.output.is_some() == old(entrait_sig).sig.output.is_some()
            &&& (old(entrait_sig).sig.output matches Some(t) ==> same_but_slot_names(t, final(entrait_sig).sig.output->0))
        }),
        final(entrait_sig).sig.prefix == old(entrait_sig).sig.prefix,
        final(entrait_sig).sig.asyncness == old(entrait_sig).sig.asyncness,
        final(entrait_sig).sig.ident == old(entrait_sig).sig.ident,
        final(entrait_sig).sig.span == old(entrait_sig).sig.span,
        final(entrait_sig).sig.generics == old(entrait_sig).sig.generics,
{
    let rg = receiver_generation;
    let mut elision_detector = ElisionDetector::new(rg);
    elision_detector.detect(&entrait_sig.sig.inputs);
    let ghost args = entrait_sig.sig.inputs@;
    let ghost target = output_target(elided_list(args, rg));
    let mut visitor = LifetimeMutVisitor::new(elision_detector.elided_params);
    assert(visitor.target() == target);
    assert(visitor.state() == start_state());

    let mut inputs: Vec<FnArg> = Vec::new();
    std::mem::swap(&mut inputs, &mut entrait_sig.sig.inputs);
    let n = inputs.len();
    let mut rest = inputs;
    let mut out: Vec<FnArg> = Vec::new();
    let mut index: usize = 0;
    while index < n
        invariant
            n == args.len(),
            index <= n,
            rest@.len() == n - index,
            forall|j: int| 0 <= j < n - index ==> #[trigger] rest@[j] == args[j + index],
            visitor.target() == target,
            visitor.state() == run_args(start_state(), rg, target, args.take(index as int)).0,
            out@.len() == index,
            forall|j: int| 0 <= j < index ==> {
                &&& same_but_lifetimes(args[j], #[trigger] out@[j])
                &&& arg_slots(out@[j]) == named(arg_slots(args[j]), run_args(start_state(), rg, target, args.take(index as int)).1[j])
            },
        decreases n - index,
    {
        let arg = rest.remove(0);
        assert(arg == args[index as int]);
        let ghost t = args.take(index + 1);
        assert(t.drop_last() =~= args.take(index as int));
        assert(t.last() == args[index as int]);
        let ghost prev = run_args(start_state(), rg, target, args.take(index as int));
        proof { lemma_run_args_len(start_state(), rg, target, args.take(index as int)); }
        visitor.current_component = if index == 0 {
            match rg {
                ReceiverGeneration::Unchanged => SigComponent::Param(0),
                _ => SigComponent::Receiver,
            }
        } else {
            match rg {
                ReceiverGeneration::Unchanged => SigComponent::Param(index),
                _ => SigComponent::Param(index - 1),
            }
        };
        assert(visitor.current_component == component_of(index as nat, rg));
        let new_arg = visitor.de_elide_arg(arg);
        out.push(new_arg);
        proof {
            let now = run_args(start_state(), rg, target, t);
            assert(now.1 == prev.1.push(run_slots(prev.0, component_of(index as nat, rg), target, arg_slots(args[index as int])).1));
            assert forall|j: int| 0 <= j < index + 1 implies {
                &&& same_but_lifetimes(args[j], #[trigger] out@[j])
                &&& arg_slots(out@[j]) == named(arg_slots(args[j]), now.1[j])
            } by {
                if j < index {
                    assert(now.1[j] == prev.1[j]);
                }
            }
        }
        index = index + 1;
    }
    assert(args.take(n as int) =~= args);
    entrait_sig.sig.inputs = out;

    visitor.current_component = SigComponent::Output;
    let mut output: Option<TypeModel> = None;
    std::mem::swap(&mut output, &mut entrait_sig.sig.output);
    let ghost out_slots = output_slots(output);
    let new_output = match output {
        Some(t) => Some(visitor.de_elide_type(t)),
        None => None,
    };
    proof {
        if output is None {
            assert(named(out_slots, Seq::empty()) =~= Seq::<SlotV>::empty());
        }
    }
    entrait_sig.sig.output = new_output;
    let ghost before = ets_view(entrait_sig.et_lifetimes@);
    let ghost added = ets_view(visitor.et_lifetimes@);
    entrait_sig.et_lifetimes.append(&mut visitor.et_lifetimes);
    assert(ets_view(entrait_sig.et_lifetimes@) =~= before + added);
}

} // verus!
