//! Makes every parameter of a generated trait method a plain identifier, so the generated
//! implementation can pass the parameters on by name.

use vstd::prelude::*;
use proc_macro2::Span;
use crate::model::{FnArg, PatModel, PatV, Signature};
use crate::text::{decimal, decimal_string, contains_string, copy_string, owned};

verus! {

/// The Unicode `Lowercase` property of a character.
pub uninterp spec fn is_lowercase_char(c: char) -> bool;

/// `char::is_lowercase`: whether the character has the Unicode `Lowercase` property. The
/// property is given by Unicode's tables; the contract names the result and says no more.
#[verifier::external_body]
fn char_is_lowercase(c: char) -> (r: bool)
    ensures
        r == is_lowercase_char(c),
{
    c.is_lowercase()
}

/// Whether a parameter already is a plain identifier, or needs fixing.
#[derive(Copy, Clone, Eq, PartialEq, Structural, Debug)]
pub enum ParamStatus {
    Good,
    NeedsFix,
}

impl ParamStatus {
    pub fn is_ok(self) -> (r: bool)
        ensures
            r == (self == ParamStatus::Good),
    {
        matches!(self, ParamStatus::Good)
    }

    pub fn combine(self, other: ParamStatus) -> (r: ParamStatus)
        ensures
            r == (if self == ParamStatus::Good && other == ParamStatus::Good {
                ParamStatus::Good
            } else {
                ParamStatus::NeedsFix
            }),
    {
        match (self, other) {
            (ParamStatus::Good, ParamStatus::Good) => ParamStatus::Good,
            _ => ParamStatus::NeedsFix,
        }
    }
}

/// The pattern of a parameter; `None` for a receiver.
pub open spec fn arg_pat(a: FnArg) -> Option<PatV> {
    match a {
        FnArg::Receiver { .. } => None,
        FnArg::Typed { pat, .. } => Some(pat@),
    }
}

pub open spec fn pat_views(args: Seq<FnArg>) -> Seq<Option<PatV>> {
    args.map_values(|a: FnArg| arg_pat(a))
}

/// The two parameters differ at most in the pattern of a typed parameter.
pub open spec fn same_but_pat(a: FnArg, b: FnArg) -> bool {
    &&& (a is Receiver ==> b == a)
    &&& (a matches FnArg::Typed { attrs, ty, .. } ==> (b matches FnArg::Typed {
        attrs: attrs2,
        ty: ty2,
        ..
    } && attrs2 == attrs && ty2 == ty))
}

/// The two parameter lists differ at most in the patterns of typed parameters.
pub open spec fn same_but_pats(a: Seq<FnArg>, b: Seq<FnArg>) -> bool {
    &&& a.len() == b.len()
    &&& forall|i: int| 0 <= i < a.len() ==> #[trigger] same_but_pat(a[i], b[i])
}

pub open spec fn is_plain(p: Option<PatV>) -> bool {
    !(p matches Some(PatV::Other { .. }))
}

pub open spec fn all_plain(ps: Seq<Option<PatV>>) -> bool {
    forall|i: int| 0 <= i < ps.len() ==> #[trigger] is_plain(ps[i])
}

/// A parameter named like the function itself gets an underscore appended.
pub open spec fn rename_conflict(p: Option<PatV>, fn_ident: Seq<char>) -> Option<PatV> {
    match p {
        Some(PatV::Ident { by_ref, mutable, ident, span }) => if ident == fn_ident {
            Some(PatV::Ident { by_ref, mutable, ident: ident.push('_'), span })
        } else {
            p
        },
        _ => p,
    }
}

/// An identifier in a pattern binds a value when it starts with a lowercase letter.
pub open spec fn is_binding(name: Seq<char>) -> bool {
    name.len() > 0 && is_lowercase_char(name[0])
}

/// The binding identifiers of a pattern, in order.
pub open spec fn bindings(idents: Seq<(Seq<char>, Span)>) -> Seq<(Seq<char>, Span)>
    decreases idents.len(),
{
    if idents.len() == 0 {
        Seq::empty()
    } else {
        let r = bindings(idents.drop_last());
        if is_binding(idents.last().0) {
            r.push(idents.last())
        } else {
            r
        }
    }
}

/// A pattern with exactly one binding becomes that binding.
pub open spec fn lift(p: Option<PatV>) -> Option<PatV> {
    match p {
        Some(PatV::Other { idents, tokens }) => if bindings(idents).len() == 1 {
            Some(PatV::Ident {
                by_ref: false,
                mutable: false,
                ident: bindings(idents)[0].0,
                span: bindings(idents)[0].1,
            })
        } else {
            p
        },
        _ => p,
    }
}

pub open spec fn underscores(n: nat) -> Seq<char> {
    Seq::new(n, |i: int| '_')
}

/// The name tried for the parameter at `index` after `attempts` failed tries:
/// `attempts` underscores, then `arg` and the index.
pub open spec fn candidate(index: nat, attempts: nat) -> Seq<char> {
    underscores(attempts) + seq!['a', 'r', 'g'] + decimal(index)
}

/// `attempts` gives the first candidate name not taken.
pub open spec fn first_free(index: nat, attempts: nat, taken: Set<Seq<char>>) -> bool {
    &&& !taken.contains(candidate(index, attempts))
    &&& forall|b: nat| b < attempts ==> taken.contains(#[trigger] candidate(index, b))
}

/// The names of plain identifier parameters.
pub open spec fn plain_names(ps: Seq<Option<PatV>>) -> Set<Seq<char>> {
    Set::new(
        |s: Seq<char>|
            exists|i: int|
                0 <= i < ps.len() && (#[trigger] ps[i] matches Some(PatV::Ident { ident, .. }) && ident
                    == s),
    )
}

/// Each remaining non-identifier pattern gets the first free name for its position among the
/// typed parameters; names handed out are taken from then on.
pub open spec fn autogen(ps: Seq<Option<PatV>>, index: nat, taken: Set<Seq<char>>, span: Span) -> Seq<Option<PatV>>
    decreases ps.len(),
{
    if ps.len() == 0 {
        Seq::empty()
    } else {
        let p = ps[0];
        let rest = ps.drop_first();
        match p {
            None => seq![p] + autogen(rest, index, taken, span),
            Some(PatV::Ident { .. }) => seq![p] + autogen(rest, index + 1, taken, span),
            Some(PatV::Other { .. }) => {
                let a = choose|a: nat| first_free(index, a, taken);
                let name = candidate(index, a);
                seq![Some(PatV::Ident { by_ref: false, mutable: false, ident: name, span })]
                    + autogen(rest, index + 1, taken.insert(name), span)
            },
        }
    }
}

/// What `fix_fn_param_idents` makes of the parameter patterns: conflicts are renamed; if that
/// leaves non-identifier patterns, unambiguous bindings are lifted out; if that still leaves
/// some, they get generated names.
pub open spec fn fixed_pats(ps: Seq<Option<PatV>>, fn_ident: Seq<char>, span: Span) -> Seq<Option<PatV>> {
    let p1 = ps.map_values(|p: Option<PatV>| rename_conflict(p, fn_ident));
    if all_plain(p1) {
        p1
    } else {
        let p2 = p1.map_values(|p: Option<PatV>| lift(p));
        if all_plain(p2) {
            p2
        } else {
            autogen(p2, 0, plain_names(p2), span)
        }
    }
}

/// A status is `Ok` exactly when every pattern is plain.
pub open spec fn status_of(ps: Seq<Option<PatV>>) -> ParamStatus {
    if all_plain(ps) {
        ParamStatus::Good
    } else {
        ParamStatus::NeedsFix
    }
}

/// Makes the parameters of `sig` plain identifiers. `span` is given to generated names.
pub fn fix_fn_param_idents(sig: &mut Signature, span: Span)
    ensures
        pat_views(final(sig).inputs@) == fixed_pats(pat_views(old(sig).inputs@), old(sig).ident@, span),
        same_but_pats(old(sig).inputs@, final(sig).inputs@),
        final(sig).prefix == old(sig).prefix,
        final(sig).asyncness == old(sig).asyncness,
        final(sig).ident == old(sig).ident,
        final(sig).span == old(sig).span,
        final(sig).generics == old(sig).generics,
        final(sig).output == old(sig).output,
{
    let mut inputs: Vec<FnArg> = Vec::new();
    std::mem::swap(&mut inputs, &mut sig.inputs);
    let ghost ps0 = pat_views(inputs@);
    let ghost orig = inputs@;

    let (inputs, status) = fix_ident_conflicts(inputs, &sig.ident);
    let ghost p1 = ps0.map_values(|p: Option<PatV>| rename_conflict(p, sig.ident@));
    if status.is_ok() {
        sig.inputs = inputs;
        return;
    }
    let ghost mid = inputs@;
    let (inputs, status) = lift_inner_pat_idents(inputs);
    let ghost p2 = p1.map_values(|p: Option<PatV>| lift(p));
    if status.is_ok() {
        sig.inputs = inputs;
        proof { lemma_same_trans(orig, mid, inputs@); }
        return;
    }
    let ghost mid2 = inputs@;
    let inputs = autogenerate_for_non_idents(inputs, span);
    proof {
        lemma_same_trans(orig, mid, mid2);
        lemma_same_trans(orig, mid2, inputs@);
    }
    sig.inputs = inputs;
}

proof fn lemma_same_trans(a: Seq<FnArg>, b: Seq<FnArg>, c: Seq<FnArg>)
    requires
        same_but_pats(a, b),
        same_but_pats(b, c),
    ensures
        same_but_pats(a, c),
{
    assert forall|i: int| 0 <= i < a.len() implies #[trigger] same_but_pat(a[i], c[i]) by {
        assert(same_but_pat(a[i], b[i]));
        assert(same_but_pat(b[i], c[i]));
    }
}

fn with_underscore(s: &String) -> (r: String)
    ensures
        r@ == s@.push('_'),
{
    let mut r = copy_string(s);
    proof { reveal_strlit("_"); }
    r.append("_");
    assert(r@ =~= s@.push('_'));
    r
}

/// Renames a parameter named like the function.
fn fix_conflict_arg(arg: FnArg, fn_ident: &String) -> (r: (FnArg, ParamStatus))
    ensures
        arg_pat(r.0) == rename_conflict(arg_pat(arg), fn_ident@),
        same_but_pat(arg, r.0),
        r.1 == (if is_plain(arg_pat(arg)) { ParamStatus::Good } else { ParamStatus::NeedsFix }),
{
    match arg {
        FnArg::Receiver { .. } => (arg, ParamStatus::Good),
        FnArg::Typed { attrs, pat, ty } => match pat {
            PatModel::Ident { by_ref, mutable, ident, span } => {
                if crate::text::str_eq(ident.as_str(), fn_ident.as_str()) {
                    let renamed = with_underscore(&ident);
                    (FnArg::Typed { attrs, pat: PatModel::Ident { by_ref, mutable, ident: renamed, span }, ty }, ParamStatus::Good)
                } else {
                    (FnArg::Typed { attrs, pat: PatModel::Ident { by_ref, mutable, ident, span }, ty }, ParamStatus::Good)
                }
            },
            PatModel::Other { idents, tokens } => (
                FnArg::Typed { attrs, pat: PatModel::Other { idents, tokens }, ty },
                ParamStatus::NeedsFix,
            ),
        },
    }
}

fn fix_ident_conflicts(args: Vec<FnArg>, fn_ident: &String) -> (r: (Vec<FnArg>, ParamStatus))
    ensures
        pat_views(r.0@) == pat_views(args@).map_values(|p: Option<PatV>| rename_conflict(p, fn_ident@)),
        same_but_pats(args@, r.0@),
        r.1 == status_of(pat_views(r.0@)),
{
    let ghost orig = args@;
    let n = args.len();
    let mut rest = args;
    let mut out: Vec<FnArg> = Vec::new();
    let mut status = ParamStatus::Good;
    let mut i: usize = 0;
    while i < n
        invariant
            n == orig.len(),
            i <= n,
            rest@ == orig.skip(i as int),
            out@.len() == i,
            forall|j: int| 0 <= j < i ==> #[trigger] arg_pat(out@[j]) == rename_conflict(arg_pat(orig[j]), fn_ident@),
            forall|j: int| 0 <= j < i ==> #[trigger] same_but_pat(orig[j], out@[j]),
            status == (if forall|j: int| 0 <= j < i ==> #[trigger] is_plain(arg_pat(orig[j])) { ParamStatus::Good } else { ParamStatus::NeedsFix }),
        decreases n - i,
    {
        let arg = rest.remove(0);
        assert(arg == orig[i as int]);
        let (fixed, st) = fix_conflict_arg(arg, fn_ident);
        out.push(fixed);
        let ghost prev = status;
        status = status.combine(st);
        proof {
            assert(rest@ =~= orig.skip(i + 1));
            if st == ParamStatus::NeedsFix {
                assert(!is_plain(arg_pat(orig[i as int])));
            }
            if prev == ParamStatus::NeedsFix {
                let j = choose|j: int| 0 <= j < i && !is_plain(arg_pat(orig[j]));
                assert(!is_plain(arg_pat(orig[j])));
            }
        }
        i = i + 1;
    }
    proof {
        let ps = pat_views(out@);
        let want = pat_views(orig).map_values(|p: Option<PatV>| rename_conflict(p, fn_ident@));
        assert(ps =~= want);
        assert forall|j: int| 0 <= j < n implies is_plain(arg_pat(orig[j])) == #[trigger] is_plain(ps[j]) by {
            assert(ps[j] == arg_pat(out@[j]));
        }
        if status == ParamStatus::Good {
            assert(all_plain(ps));
        } else {
            let j = choose|j: int| 0 <= j < n && !is_plain(arg_pat(orig[j]));
            assert(!is_plain(ps[j]));
        }
        assert forall|j: int| 0 <= j < orig.len() implies #[trigger] same_but_pat(orig[j], out@[j]) by {}
    }
    (out, status)
}


/// The binding identifiers of a pattern: how many there are, and the first one.
fn count_bindings(idents: &Vec<(String, Span)>) -> (r: (usize, Option<(String, Span)>))
    ensures
        r.0 == bindings(idents@.map_values(|p: (String, Span)| (p.0@, p.1))).len(),
        r.0 > 0 ==> (r.1 matches Some(b) && (b.0@, b.1) == bindings(idents@.map_values(|p: (String, Span)| (p.0@, p.1)))[0]),
{
    let ghost iv = idents@.map_values(|p: (String, Span)| (p.0@, p.1));
    let mut count: usize = 0;
    let mut first: Option<(String, Span)> = None;
    let mut i: usize = 0;
    while i < idents.len()
        invariant
            i <= idents@.len(),
            iv == idents@.map_values(|p: (String, Span)| (p.0@, p.1)),
            count == bindings(iv.take(i as int)).len(),
            count <= i,
            count > 0 ==> (first matches Some(b) && (b.0@, b.1) == bindings(iv.take(i as int))[0]),
        decreases idents@.len() - i,
    {
        let name = &idents[i].0;
        let ghost t = iv.take(i + 1);
        assert(t.drop_last() =~= iv.take(i as int));
        assert(t.last() == iv[i as int]);
        let binding = if name.unicode_len() > 0 {
            char_is_lowercase(name.as_str().get_char(0))
        } else {
            false
        };
        assert(binding == is_binding(iv[i as int].0));
        if binding {
            if count == 0 {
                first = Some((copy_string(name), idents[i].1));
            }
            count = count + 1;
        }
        i = i + 1;
    }
    assert(iv.take(idents@.len() as int) =~= iv);
    (count, first)
}

/// Lifts the single binding out of a pattern that has exactly one.
fn lift_arg(arg: FnArg) -> (r: (FnArg, ParamStatus))
    ensures
        arg_pat(r.0) == lift(arg_pat(arg)),
        same_but_pat(arg, r.0),
        r.1 == (if is_plain(lift(arg_pat(arg))) { ParamStatus::Good } else { ParamStatus::NeedsFix }),
{
    match arg {
        FnArg::Receiver { .. } => (arg, ParamStatus::Good),
        FnArg::Typed { attrs, pat, ty } => match pat {
            PatModel::Ident { by_ref, mutable, ident, span } => (
                FnArg::Typed { attrs, pat: PatModel::Ident { by_ref, mutable, ident, span }, ty },
                ParamStatus::Good,
            ),
            PatModel::Other { idents, tokens } => {
                let (count, first) = count_bindings(&idents);
                if count == 1 {
                    match first {
                        Some((ident, span)) => (
                            FnArg::Typed {
                                attrs,
                                pat: PatModel::Ident { by_ref: false, mutable: false, ident, span },
                                ty,
                            },
                            ParamStatus::Good,
                        ),
                        None => {
                            assert(false);
                            (FnArg::Typed { attrs, pat: PatModel::Other { idents, tokens }, ty }, ParamStatus::NeedsFix)
                        },
                    }
                } else {
                    (FnArg::Typed { attrs, pat: PatModel::Other { idents, tokens }, ty }, ParamStatus::NeedsFix)
                }
            },
        },
    }
}

fn lift_inner_pat_idents(args: Vec<FnArg>) -> (r: (Vec<FnArg>, ParamStatus))
    ensures
        pat_views(r.0@) == pat_views(args@).map_values(|p: Option<PatV>| lift(p)),
        same_but_pats(args@, r.0@),
        r.1 == status_of(pat_views(r.0@)),
{
    let ghost orig = args@;
    let n = args.len();
    let mut rest = args;
    let mut out: Vec<FnArg> = Vec::new();
    let mut status = ParamStatus::Good;
    let mut i: usize = 0;
    while i < n
        invariant
            n == orig.len(),
            i <= n,
            rest@ == orig.skip(i as int),
            out@.len() == i,
            forall|j: int| 0 <= j < i ==> #[trigger] arg_pat(out@[j]) == lift(arg_pat(orig[j])),
            forall|j: int| 0 <= j < i ==> #[trigger] same_but_pat(orig[j], out@[j]),
            status == (if forall|j: int| 0 <= j < i ==> #[trigger] is_plain(arg_pat(out@[j])) { ParamStatus::Good } else { ParamStatus::NeedsFix }),
        decreases n - i,
    {
        let arg = rest.remove(0);
        assert(arg == orig[i as int]);
        let (fixed, st) = lift_arg(arg);
        let ghost prev_out = out@;
        out.push(fixed);
        let ghost prev = status;
        status = status.combine(st);
        proof {
            assert(rest@ =~= orig.skip(i + 1));
            assert forall|j: int| 0 <= j < i implies out@[j] == prev_out[j] by {}
            if prev == ParamStatus::NeedsFix {
                let j = choose|j: int| 0 <= j < i && !is_plain(arg_pat(prev_out[j]));
                assert(!is_plain(arg_pat(out@[j])));
            }
            if st == ParamStatus::NeedsFix {
                assert(!is_plain(arg_pat(out@[i as int])));
            }
        }
        i = i + 1;
    }
    proof {
        let ps = pat_views(out@);
        let want = pat_views(orig).map_values(|p: Option<PatV>| lift(p));
        assert(ps =~= want);
        if status == ParamStatus::Good {
            assert forall|j: int| 0 <= j < ps.len() implies #[trigger] is_plain(ps[j]) by {
                assert(is_plain(arg_pat(out@[j])));
            }
        } else {
            let j = choose|j: int| 0 <= j < n && !is_plain(arg_pat(out@[j]));
            assert(!is_plain(ps[j]));
        }
        assert forall|j: int| 0 <= j < orig.len() implies #[trigger] same_but_pat(orig[j], out@[j]) by {}
    }
    (out, status)
}

/// The set of names in a list of strings.
pub open spec fn name_set(v: Seq<String>) -> Set<Seq<char>> {
    Set::new(|s: Seq<char>| exists|j: int| 0 <= j < v.len() && #[trigger] v[j]@ == s)
}

proof fn lemma_candidate_len(index: nat, a: nat)
    ensures
        candidate(index, a).len() == a + 3 + decimal(index).len(),
{
}

/// Taken names can hold no more distinct candidates than there are names.
proof fn lemma_candidates_bound(index: nat, k: nat, v: Seq<String>)
    requires
        forall|b: nat| b < k ==> name_set(v).contains(#[trigger] candidate(index, b)),
    ensures
        k <= v.len(),
{
    let x = vstd::set_lib::set_int_range(0, k as int);
    vstd::set_lib::lemma_int_range(0, k as int);
    let f = |b: int| candidate(index, b as nat);
    assert forall|b1: int, b2: int| x.contains(b1) && x.contains(b2) && #[trigger] f(b1) == #[trigger] f(b2) implies b1 == b2 by {
        lemma_candidate_len(index, b1 as nat);
        lemma_candidate_len(index, b2 as nat);
    }
    assert(vstd::relations::injective_on(f, x));
    let y = x.map(f);
    vstd::set_lib::lemma_map_size(x, y, f);
    let vs = v.map_values(|s: String| s@);
    assert forall|c: Seq<char>| y.contains(c) implies #[trigger] vs.to_set().contains(c) by {
        let b = choose|b: int| x.contains(b) && f(b) == c;
        assert(name_set(v).contains(candidate(index, b as nat)));
        let j = choose|j: int| 0 <= j < v.len() && #[trigger] v[j]@ == candidate(index, b as nat);
        assert(vs[j] == c);
    }
    vs.lemma_cardinality_of_set();
    vstd::set_lib::lemma_len_subset(y, vs.to_set());
}

proof fn lemma_first_free_unique(index: nat, a: nat, b: nat, taken: Set<Seq<char>>)
    requires
        first_free(index, a, taken),
        first_free(index, b, taken),
    ensures
        a == b,
{
    if a < b {
        assert(taken.contains(candidate(index, a)));
    } else if b < a {
        assert(taken.contains(candidate(index, b)));
    }
}

fn underscore_string(n: usize) -> (s: String)
    ensures
        s@ == underscores(n as nat),
{
    let mut s = owned("");
    proof {
        reveal_strlit("");
        reveal_strlit("_");
    }
    let mut i: usize = 0;
    while i < n
        invariant
            i <= n,
            s@ == underscores(i as nat),
        decreases n - i,
    {
        proof { reveal_strlit("_"); }
        s.append("_");
        assert(s@ =~= underscores((i + 1) as nat));
        i = i + 1;
    }
    s
}

fn candidate_string(index: usize, attempts: usize) -> (s: String)
    ensures
        s@ == candidate(index as nat, attempts as nat),
{
    let mut s = underscore_string(attempts);
    proof { reveal_strlit("arg"); }
    s.append("arg");
    let d = decimal_string(index);
    s.append(d.as_str());
    assert(s@ =~= candidate(index as nat, attempts as nat));
    s
}

/// The first candidate name for the parameter at `index` that is not taken.
fn generate_ident(index: usize, taken: &Vec<String>) -> (r: String)
    ensures
        exists|a: nat| first_free(index as nat, a, name_set(taken@)) && r@ == candidate(index as nat, a),
{
    let tl = taken.len();
    let mut attempts: usize = 0;
    loop
        invariant
            tl == taken@.len(),
            attempts <= taken@.len(),
            forall|b: nat| b < attempts ==> name_set(taken@).contains(#[trigger] candidate(index as nat, b)),
        decreases taken@.len() + 1 - attempts,
    {
        let s = candidate_string(index, attempts);
        if !contains_string(taken, &s) {
            proof {
                if name_set(taken@).contains(s@) {
                    let j = choose|j: int| 0 <= j < taken@.len() && taken@[j]@ == s@;
                    assert(taken@[j]@ == s@);
                }
            }
            return s;
        }
        proof {
            assert(name_set(taken@).contains(s@));
            assert forall|b: nat| b < attempts + 1 implies name_set(taken@).contains(#[trigger] candidate(index as nat, b)) by {}
            lemma_candidates_bound(index as nat, (attempts + 1) as nat, taken@);
        }
        attempts = attempts + 1;
    }
}

/// The names of the plain identifier parameters.
fn taken_idents(args: &Vec<FnArg>) -> (r: Vec<String>)
    ensures
        name_set(r@) == plain_names(pat_views(args@)),
{
    let ghost ps = pat_views(args@);
    let mut r: Vec<String> = Vec::new();
    let mut i: usize = 0;
    while i < args.len()
        invariant
            i <= args@.len(),
            ps == pat_views(args@),
            name_set(r@) == plain_names(ps.take(i as int)),
        decreases args@.len() - i,
    {
        let ghost before = r@;
        match &args[i] {
            FnArg::Typed { pat: PatModel::Ident { ident, .. }, .. } => {
                r.push(copy_string(ident));
            },
            _ => {},
        }
        proof {
            let t = ps.take(i + 1);
            assert(t.drop_last() =~= ps.take(i as int));
            assert(t[i as int] == ps[i as int]);
            assert forall|s: Seq<char>| name_set(r@).contains(s) == #[trigger] plain_names(t).contains(s) by {
                if name_set(r@).contains(s) {
                    let j = choose|j: int| 0 <= j < r@.len() && #[trigger] r@[j]@ == s;
                    if j < before.len() {
                        assert(name_set(before).contains(s));
                        let pt = ps.take(i as int);
                        let k = choose|k: int| 0 <= k < pt.len() && (#[trigger] pt[k] matches Some(PatV::Ident { ident, .. }) && ident == s);
                        assert(t[k] == ps.take(i as int)[k]);
                    } else {
                        assert(t[i as int] matches Some(PatV::Ident { ident, .. }) && ident == s);
                    }
                }
                if plain_names(t).contains(s) {
                    let k = choose|k: int| 0 <= k < t.len() && (#[trigger] t[k] matches Some(PatV::Ident { ident, .. }) && ident == s);
                    if k < i {
                        assert(ps.take(i as int)[k] == t[k]);
                        assert(plain_names(ps.take(i as int)).contains(s));
                        let j = choose|j: int| 0 <= j < before.len() && #[trigger] before[j]@ == s;
                        assert(r@[j] == before[j]);
                    } else {
                        assert(r@.last()@ == s);
                        assert(r@[r@.len() - 1]@ == s);
                    }
                }
            }
            assert(name_set(r@) =~= plain_names(t));
        }
        i = i + 1;
    }
    assert(ps.take(args@.len() as int) =~= ps);
    r
}

proof fn lemma_name_set_push(v: Seq<String>, s: String)
    ensures
        name_set(v.push(s)) == name_set(v).insert(s@),
{
    assert forall|x: Seq<char>| name_set(v.push(s)).contains(x) == #[trigger] name_set(v).insert(s@).contains(x) by {
        if name_set(v.push(s)).contains(x) {
            let j = choose|j: int| 0 <= j < v.push(s).len() && v.push(s)[j]@ == x;
            if j < v.len() {
                assert(v[j]@ == x);
            }
        }
        if name_set(v).contains(x) {
            let j = choose|j: int| 0 <= j < v.len() && v[j]@ == x;
            assert(v.push(s)[j]@ == x);
        }
        if x == s@ {
            assert(v.push(s)[v.len() as int]@ == x);
        }
    }
    assert(name_set(v.push(s)) =~= name_set(v).insert(s@));
}

/// Gives the remaining non-identifier patterns generated names.
fn autogenerate_for_non_idents(args: Vec<FnArg>, span: Span) -> (r: Vec<FnArg>)
    ensures
        pat_views(r@) == autogen(pat_views(args@), 0, plain_names(pat_views(args@)), span),
        same_but_pats(args@, r@),
{
    let ghost orig = args@;
    let ghost ps = pat_views(orig);
    let mut taken = taken_idents(&args);
    let n = args.len();
    let mut rest = args;
    let mut out: Vec<FnArg> = Vec::new();
    let mut index: usize = 0;
    let mut i: usize = 0;
    assert(ps.skip(0) =~= ps);
    assert(pat_views(out@) =~= Seq::<Option<PatV>>::empty());
    assert(pat_views(out@) + autogen(ps.skip(0), 0, name_set(taken@), span) =~= autogen(ps, 0, plain_names(ps), span));
    while i < n
        invariant
            n == orig.len(),
            ps == pat_views(orig),
            i <= n,
            index <= i,
            rest@ == orig.skip(i as int),
            out@.len() == i,
            pat_views(out@) + autogen(ps.skip(i as int), index as nat, name_set(taken@), span)
                == autogen(ps, 0, plain_names(ps), span),
            forall|j: int| 0 <= j < i ==> #[trigger] same_but_pat(orig[j], out@[j]),
        decreases n - i,
    {
        let arg = rest.remove(0);
        assert(arg == orig[i as int]);
        let ghost tail = ps.skip(i as int);
        let ghost before = pat_views(out@);
        let ghost taken_before = name_set(taken@);
        assert(tail[0] == ps[i as int]);
        assert(tail.drop_first() =~= ps.skip(i + 1));
        match arg {
            FnArg::Receiver { reference, mutable, self_ty, span: rspan } => {
                out.push(FnArg::Receiver { reference, mutable, self_ty, span: rspan });
                assert(pat_views(out@) =~= before.push(None));
                assert(before.push(None) + autogen(ps.skip(i + 1), index as nat, name_set(taken@), span) =~= before + autogen(tail, index as nat, name_set(taken@), span));
            },
            FnArg::Typed { attrs, pat, ty } => {
                match pat {
                    PatModel::Ident { by_ref, mutable, ident, span: ispan } => {
                        let p = PatModel::Ident { by_ref, mutable, ident, span: ispan };
                        let ghost pv = p@;
                        out.push(FnArg::Typed { attrs, pat: p, ty });
                        assert(pat_views(out@) =~= before.push(Some(pv)));
                        assert(before.push(Some(pv)) + autogen(ps.skip(i + 1), (index + 1) as nat, name_set(taken@), span) =~= before + autogen(tail, index as nat, name_set(taken@), span));
                    },
                    PatModel::Other { idents, tokens } => {
                        let name = generate_ident(index, &taken);
                        let ghost a = choose|a: nat| first_free(index as nat, a, taken_before) && name@ == candidate(index as nat, a);
                        proof {
                            let c = choose|c: nat| first_free(index as nat, c, taken_before);
                            lemma_first_free_unique(index as nat, a, c, taken_before);
                        }
                        let ghost tb = taken@;
                        let copied = copy_string(&name);
                        proof { lemma_name_set_push(tb, copied); }
                        taken.push(copied);
                        let p = PatModel::Ident { by_ref: false, mutable: false, ident: name, span };
                        let ghost pv = p@;
                        out.push(FnArg::Typed { attrs, pat: p, ty });
                        proof {
                            assert(name_set(taken@) == taken_before.insert(pv->Ident_ident));
                            assert(pat_views(out@) =~= before.push(Some(pv)));
                            assert(before.push(Some(pv)) + autogen(ps.skip(i + 1), (index + 1) as nat, name_set(taken@), span) =~= before + autogen(tail, index as nat, taken_before, span));
                        }
                    },
                }
                index = index + 1;
            },
        }
        assert(rest@ =~= orig.skip(i + 1));
        i = i + 1;
    }
    proof {
        assert(ps.skip(n as int) =~= Seq::<Option<PatV>>::empty());
        assert(pat_views(out@) =~= pat_views(out@) + autogen(ps.skip(n as int), index as nat, name_set(taken@), span));
        assert forall|j: int| 0 <= j < orig.len() implies #[trigger] same_but_pat(orig[j], out@[j]) by {}
    }
    out
}


proof fn lemma_autogen_plain(ps: Seq<Option<PatV>>, index: nat, taken: Set<Seq<char>>, span: Span)
    ensures
        autogen(ps, index, taken, span).len() == ps.len(),
        all_plain(autogen(ps, index, taken, span)),
    decreases ps.len(),
{
    if ps.len() > 0 {
        let rest = ps.drop_first();
        let p = ps[0];
        match p {
            None => lemma_autogen_plain(rest, index, taken, span),
            Some(PatV::Ident { .. }) => lemma_autogen_plain(rest, index + 1, taken, span),
            Some(PatV::Other { .. }) => {
                let a = choose|a: nat| first_free(index, a, taken);
                lemma_autogen_plain(rest, index + 1, taken.insert(candidate(index, a)), span);
            },
        }
        let r = autogen(ps, index, taken, span);
        assert forall|i: int| 0 <= i < r.len() implies #[trigger] is_plain(r[i]) by {
            if i > 0 {
                let tail = match p {
                    None => autogen(rest, index, taken, span),
                    Some(PatV::Ident { .. }) => autogen(rest, index + 1, taken, span),
                    Some(PatV::Other { .. }) => {
                        let a = choose|a: nat| first_free(index, a, taken);
                        autogen(rest, index + 1, taken.insert(candidate(index, a)), span)
                    },
                };
                assert(r[i] == tail[i - 1]);
                assert(is_plain(tail[i - 1]));
            }
        }
    }
}

/// After `fix_fn_param_idents`, every typed parameter has a plain identifier pattern, and
/// the parameters keep their number.
pub proof fn lemma_fixed_pats_plain(ps: Seq<Option<PatV>>, fn_ident: Seq<char>, span: Span)
    ensures
        fixed_pats(ps, fn_ident, span).len() == ps.len(),
        all_plain(fixed_pats(ps, fn_ident, span)),
{
    let p1 = ps.map_values(|p: Option<PatV>| rename_conflict(p, fn_ident));
    let p2 = p1.map_values(|p: Option<PatV>| lift(p));
    if !all_plain(p1) && !all_plain(p2) {
        lemma_autogen_plain(p2, 0, plain_names(p2), span);
    }
}


proof fn lemma_autogen_shape(ps: Seq<Option<PatV>>, index: nat, taken: Set<Seq<char>>, span: Span)
    ensures
        autogen(ps, index, taken, span).len() == ps.len(),
        forall|i: int| 0 <= i < ps.len() ==> (#[trigger] autogen(ps, index, taken, span)[i] is Some <==> ps[i] is Some),
    decreases ps.len(),
{
    if ps.len() > 0 {
        let rest = ps.drop_first();
        let p = ps[0];
        let tail = match p {
            None => autogen(rest, index, taken, span),
            Some(PatV::Ident { .. }) => autogen(rest, index + 1, taken, span),
            Some(PatV::Other { .. }) => {
                let a = choose|a: nat| first_free(index, a, taken);
                autogen(rest, index + 1, taken.insert(candidate(index, a)), span)
            },
        };
        match p {
            None => lemma_autogen_shape(rest, index, taken, span),
            Some(PatV::Ident { .. }) => lemma_autogen_shape(rest, index + 1, taken, span),
            Some(PatV::Other { .. }) => {
                let a = choose|a: nat| first_free(index, a, taken);
                lemma_autogen_shape(rest, index + 1, taken.insert(candidate(index, a)), span);
            },
        }
        let r = autogen(ps, index, taken, span);
        assert forall|i: int| 0 <= i < ps.len() implies (#[trigger] r[i] is Some <==> ps[i] is Some) by {
            if i > 0 {
                assert(r[i] == tail[i - 1]);
                assert(rest[i - 1] == ps[i]);
            }
        }
    }
}

/// `fix_fn_param_idents` gives a pattern to exactly the parameters that had one.
pub proof fn lemma_fixed_pats_shape(ps: Seq<Option<PatV>>, fn_ident: Seq<char>, span: Span)
    ensures
        fixed_pats(ps, fn_ident, span).len() == ps.len(),
        forall|i: int| 0 <= i < ps.len() ==> (#[trigger] fixed_pats(ps, fn_ident, span)[i] is Some <==> ps[i] is Some),
{
    let p1 = ps.map_values(|p: Option<PatV>| rename_conflict(p, fn_ident));
    let p2 = p1.map_values(|p: Option<PatV>| lift(p));
    if !all_plain(p1) && !all_plain(p2) {
        lemma_autogen_shape(p2, 0, plain_names(p2), span);
    }
}
/// Some candidate is free for a finite set of taken names: the candidates of one index are
/// all different, so no more of them can be taken than there are names.
proof fn lemma_first_free_exists(index: nat, taken: Set<Seq<char>>)
    requires
        taken.finite(),
    ensures
        exists|a: nat| first_free(index, a, taken),
{
    let n = taken.len();
    if forall|b: nat| b <= n ==> taken.contains(#[trigger] candidate(index, b)) {
        let x = vstd::set_lib::set_int_range(0, n as int + 1);
        vstd::set_lib::lemma_int_range(0, n as int + 1);
        let f = |b: int| candidate(index, b as nat);
        assert forall|b1: int, b2: int| x.contains(b1) && x.contains(b2) && #[trigger] f(b1) == #[trigger] f(b2) implies b1 == b2 by {
            lemma_candidate_len(index, b1 as nat);
            lemma_candidate_len(index, b2 as nat);
        }
        assert(vstd::relations::injective_on(f, x));
        let y = x.map(f);
        vstd::set_lib::lemma_map_size(x, y, f);
        assert forall|c: Seq<char>| y.contains(c) implies #[trigger] taken.contains(c) by {
            let b = choose|b: int| x.contains(b) && f(b) == c;
            assert(taken.contains(candidate(index, b as nat)));
        }
        vstd::set_lib::lemma_len_subset(y, taken);
        assert(false);
    } else {
        let m = choose|b: nat| !(b <= n ==> taken.contains(#[trigger] candidate(index, b)));
        lemma_first_free_from(index, taken, 0, m);
    }
}

proof fn lemma_first_free_from(index: nat, taken: Set<Seq<char>>, b: nat, m: nat)
    requires
        b <= m,
        !taken.contains(candidate(index, m)),
        forall|c: nat| c < b ==> taken.contains(#[trigger] candidate(index, c)),
    ensures
        exists|a: nat| first_free(index, a, taken),
    decreases m - b,
{
    if !taken.contains(candidate(index, b)) {
        assert(first_free(index, b, taken));
    } else {
        assert forall|c: nat| c < b + 1 implies taken.contains(#[trigger] candidate(index, c)) by {}
        lemma_first_free_from(index, taken, b + 1, m);
    }
}

/// The name a pattern gives, if it is a plain identifier.
pub open spec fn plain_name(p: Option<PatV>) -> Seq<char> {
    match p {
        Some(PatV::Ident { ident, .. }) => ident,
        _ => Seq::empty(),
    }
}

proof fn lemma_plain_names_finite(ps: Seq<Option<PatV>>)
    ensures
        plain_names(ps).finite(),
{
    let all = ps.map_values(|p: Option<PatV>| plain_name(p)).to_set();
    vstd::seq_lib::seq_to_set_is_finite(ps.map_values(|p: Option<PatV>| plain_name(p)));
    assert forall|s: Seq<char>| plain_names(ps).contains(s) implies #[trigger] all.contains(s) by {
        let i = choose|i: int| 0 <= i < ps.len() && (#[trigger] ps[i] matches Some(PatV::Ident { ident, .. }) && ident == s);
        assert(ps.map_values(|p: Option<PatV>| plain_name(p))[i] == s);
    }
    vstd::set_lib::lemma_len_subset(plain_names(ps), all);
}

pub open spec fn is_other(p: Option<PatV>) -> bool {
    p matches Some(PatV::Other { .. })
}

pub open spec fn is_named(p: Option<PatV>) -> bool {
    p matches Some(PatV::Ident { .. })
}

/// Generated names are not taken, differ from each other, and every other parameter is left
/// as it was.
proof fn lemma_autogen_fresh(ps: Seq<Option<PatV>>, index: nat, taken: Set<Seq<char>>, span: Span)
    requires
        taken.finite(),
    ensures
        ({
            let r = autogen(ps, index, taken, span);
            &&& r.len() == ps.len()
            &&& forall|i: int| 0 <= i < ps.len() && !is_other(#[trigger] ps[i]) ==> r[i] == ps[i]
            &&& forall|i: int| 0 <= i < ps.len() && is_other(#[trigger] ps[i]) ==>
                (is_named(r[i]) && !taken.contains(plain_name(r[i])))
            &&& forall|i: int, j: int| 0 <= i < ps.len() && 0 <= j < ps.len() && i != j && is_other(#[trigger] ps[i])
                && is_other(#[trigger] ps[j]) ==> plain_name(r[i]) != plain_name(r[j])
        }),
    decreases ps.len(),
{
    if ps.len() > 0 {
        let rest = ps.drop_first();
        let p = ps[0];
        let r = autogen(ps, index, taken, span);
        match p {
            None => {
                lemma_autogen_fresh(rest, index, taken, span);
                let tail = autogen(rest, index, taken, span);
                assert forall|i: int| 1 <= i < ps.len() implies r[i] == tail[i - 1] && ps[i] == rest[i - 1] by {}
            },
            Some(PatV::Ident { .. }) => {
                lemma_autogen_fresh(rest, index + 1, taken, span);
                let tail = autogen(rest, index + 1, taken, span);
                assert forall|i: int| 1 <= i < ps.len() implies r[i] == tail[i - 1] && ps[i] == rest[i - 1] by {}
            },
            Some(PatV::Other { .. }) => {
                lemma_first_free_exists(index, taken);
                let a = choose|a: nat| first_free(index, a, taken);
                let name = candidate(index, a);
                let t2 = taken.insert(name);
                lemma_autogen_fresh(rest, index + 1, t2, span);
                let tail = autogen(rest, index + 1, t2, span);
                assert forall|i: int| 1 <= i < ps.len() implies r[i] == tail[i - 1] && ps[i] == rest[i - 1] by {}
                assert(plain_name(r[0]) == name);
                assert forall|i: int| 0 <= i < ps.len() && is_other(#[trigger] ps[i]) implies
                    (is_named(r[i]) && !taken.contains(plain_name(r[i]))) by {
                    if i > 0 {
                        assert(is_other(rest[i - 1]));
                    }
                }
                assert forall|i: int, j: int| 0 <= i < ps.len() && 0 <= j < ps.len() && i != j && is_other(#[trigger] ps[i])
                    && is_other(#[trigger] ps[j]) implies plain_name(r[i]) != plain_name(r[j]) by {
                    if i > 0 {
                        assert(is_other(rest[i - 1]));
                        assert(!t2.contains(plain_name(tail[i - 1])));
                    }
                    if j > 0 {
                        assert(is_other(rest[j - 1]));
                        assert(!t2.contains(plain_name(tail[j - 1])));
                    }
                }
            },
        }
    }
}

/// A parameter gets a generated name when its pattern, after a clash with the function's
/// name is resolved, is neither a plain identifier nor holds exactly one binding.
pub open spec fn needs_generated_name(ps: Seq<Option<PatV>>, fn_ident: Seq<char>, i: int) -> bool {
    is_other(lift(rename_conflict(ps[i], fn_ident)))
}

/// A generated parameter name never clashes: it differs from the name of every other
/// parameter, whether that name was written, lifted out of a pattern or generated too.
pub proof fn lemma_generated_names_fresh(ps: Seq<Option<PatV>>, fn_ident: Seq<char>, span: Span)
    ensures
        forall|i: int, j: int| 0 <= i < ps.len() && 0 <= j < ps.len() && i != j
            && #[trigger] needs_generated_name(ps, fn_ident, i)
            && is_named(#[trigger] fixed_pats(ps, fn_ident, span)[j])
            ==> (is_named(fixed_pats(ps, fn_ident, span)[i])
                && plain_name(fixed_pats(ps, fn_ident, span)[i]) != plain_name(fixed_pats(ps, fn_ident, span)[j])),
{
    let p1 = ps.map_values(|p: Option<PatV>| rename_conflict(p, fn_ident));
    let p2 = p1.map_values(|p: Option<PatV>| lift(p));
    let fixed = fixed_pats(ps, fn_ident, span);
    assert forall|i: int, j: int| 0 <= i < ps.len() && 0 <= j < ps.len() && i != j
        && #[trigger] needs_generated_name(ps, fn_ident, i)
        && is_named(#[trigger] fixed[j])
        implies (is_named(fixed[i]) && plain_name(fixed[i]) != plain_name(fixed[j])) by {
        assert(p2[i] == lift(rename_conflict(ps[i], fn_ident)));
        assert(is_other(p2[i]));
        assert(is_other(p1[i]));
        assert(!is_plain(p1[i]));
        assert(!is_plain(p2[i]));
        let taken = plain_names(p2);
        lemma_plain_names_finite(p2);
        lemma_autogen_fresh(p2, 0, taken, span);
        assert(fixed == autogen(p2, 0, taken, span));
        if is_other(p2[j]) {
        } else {
            assert(fixed[j] == p2[j]);
            assert(taken.contains(plain_name(p2[j])));
        }
    }
}


/// How a parameter written as a plain identifier ends up: named like the function, it gets
/// `_` appended; otherwise it is kept; either way its final name is not the function's.
pub open spec fn plain_param_fixed_right(p: Option<PatV>, fixed: Option<PatV>, fn_ident: Seq<char>) -> bool {
    match p {
        Some(PatV::Ident { by_ref, mutable, ident, span }) => {
            &&& (ident == fn_ident ==> fixed == Some(PatV::Ident { by_ref, mutable, ident: fn_ident + seq!['_'], span }))
            &&& (ident != fn_ident ==> fixed == p)
            &&& plain_name(fixed) != fn_ident
        },
        _ => true,
    }
}

/// A parameter written as a plain identifier equal to the function's own name is renamed to
/// that name followed by `_`, so that it cannot shadow the function the generated body calls;
/// every other parameter written as a plain identifier keeps it.
pub proof fn lemma_param_named_like_fn_renamed(ps: Seq<Option<PatV>>, fn_ident: Seq<char>, span: Span)
    ensures
        fixed_pats(ps, fn_ident, span).len() == ps.len(),
        forall|i: int| 0 <= i < ps.len() ==> plain_param_fixed_right(#[trigger] ps[i], fixed_pats(ps, fn_ident, span)[i], fn_ident),
{
    let p1 = ps.map_values(|p: Option<PatV>| rename_conflict(p, fn_ident));
    let p2 = p1.map_values(|p: Option<PatV>| lift(p));
    let fixed = fixed_pats(ps, fn_ident, span);
    lemma_fixed_pats_plain(ps, fn_ident, span);
    if !all_plain(p1) && !all_plain(p2) {
        lemma_plain_names_finite(p2);
        lemma_autogen_fresh(p2, 0, plain_names(p2), span);
    }
    assert forall|i: int| 0 <= i < ps.len() implies plain_param_fixed_right(#[trigger] ps[i], fixed[i], fn_ident) by {
        if ps[i] is Some && ps[i]->0 is Ident {
            assert(p1[i] == rename_conflict(ps[i], fn_ident));
            assert(p2[i] == lift(p1[i]));
            assert(p2[i] == p1[i]);
            assert(!is_other(p2[i]));
            assert(fixed[i] == p1[i]);
            if let Some(PatV::Ident { ident, .. }) = ps[i] {
                if ident == fn_ident {
                    assert(ident.push('_') =~= fn_ident + seq!['_']);
                    assert((fn_ident + seq!['_']).len() != fn_ident.len());
                }
            }
        }
    }
}

} // verus!
