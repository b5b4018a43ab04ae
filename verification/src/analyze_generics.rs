//! Finds the dependency of an entraited function, and the generics its trait keeps.

use vstd::prelude::*;
use proc_macro2::Span;
use crate::error::{ErrV, MacroError};
use crate::model::{Bound, FnArg, GenericParam, GenericParamKind, GenericParamV, Generics, Ident, IdentV, Signature, TypeModel, TypeShape, TypeV, ShapeV, WherePredicate, WherePredicateV, bounds_view, dup_bounds, params_view, preds_view};
use crate::opt::{Opts, flag};
use crate::attr_parse::err_at;
use crate::text::str_eq;

verus! {

/// The dependency of a function: generic (the bounds it asks for, and its type parameter if it
/// has one), a concrete type, or none.
pub enum FnDeps {
    Generic { generic_param: Option<Ident>, trait_bounds: Vec<Bound> },
    Concrete(Box<TypeModel>),
    NoDeps,
}

pub enum FnDepsV {
    Generic { generic_param: Option<IdentV>, trait_bounds: Seq<Seq<crate::tokens::TokV>> },
    Concrete(TypeV),
    NoDeps,
}

impl View for FnDeps {
    type V = FnDepsV;

    open spec fn view(&self) -> FnDepsV {
        match self {
            FnDeps::Generic { generic_param, trait_bounds } => FnDepsV::Generic {
                generic_param: match generic_param {
                    Some(i) => Some(i@),
                    None => None,
                },
                trait_bounds: bounds_view(trait_bounds@),
            },
            FnDeps::Concrete(t) => FnDepsV::Concrete((**t)@),
            FnDeps::NoDeps => FnDepsV::NoDeps,
        }
    }
}

/// The generic parameters and where predicates the generated trait keeps.
pub struct TraitGenerics {
    pub params: Vec<GenericParam>,
    pub where_predicates: Vec<WherePredicate>,
}

pub struct TraitGenericsV {
    pub params: Seq<GenericParamV>,
    pub preds: Seq<WherePredicateV>,
}

impl View for TraitGenerics {
    type V = TraitGenericsV;

    open spec fn view(&self) -> TraitGenericsV {
        TraitGenericsV { params: params_view(self.params@), preds: preds_view(self.where_predicates@) }
    }
}

/// The parameters other than the one at `skip`, leaving out lifetimes.
pub open spec fn kept_params(ps: Seq<GenericParamV>, skip: int) -> Seq<GenericParamV>
    decreases ps.len(),
{
    if ps.len() == 0 {
        Seq::empty()
    } else {
        let r = kept_params(ps.drop_last(), skip);
        if ps.len() - 1 != skip && ps.last().kind != GenericParamKind::Lifetime {
            r.push(ps.last())
        } else {
            r
        }
    }
}

pub open spec fn where_preds(g: Generics) -> Seq<WherePredicateV> {
    match g.where_clause {
        Some(w) => preds_view(w@),
        None => Seq::empty(),
    }
}

/// The type is a path of one segment, named `name`, without `Self::` or leading `::`.
pub open spec fn is_single_ident_path(ty: TypeV, name: Seq<char>) -> bool {
    ty.shape matches ShapeV::Path { qself, leading_colon, segments }
        && !qself && !leading_colon && segments.len() == 1 && segments[0].name == name
}

pub open spec fn pred_bounds_param(p: WherePredicateV, name: Seq<char>) -> bool {
    p.bounded matches Some(t) && is_single_ident_path(t, name)
}

/// The bounds that where predicates put on the parameter `name`, in order.
pub open spec fn bounds_from_preds(ps: Seq<WherePredicateV>, name: Seq<char>) -> Seq<Seq<crate::tokens::TokV>>
    decreases ps.len(),
{
    if ps.len() == 0 {
        Seq::empty()
    } else {
        let r = bounds_from_preds(ps.drop_last(), name);
        if pred_bounds_param(ps.last(), name) { r + ps.last().bounds } else { r }
    }
}

/// A where predicate on a type written as one plain name, such as `T: Clone`.
pub open spec fn pred_on_plain_name(p: WherePredicateV) -> bool {
    p.bounded matches Some(t) && (t.shape matches ShapeV::Path { qself, leading_colon, segments }
        && !qself && !leading_colon && segments.len() == 1)
}

/// The where predicates the trait keeps once the parameter `name` is the dependency: those
/// on a type written as one plain name go (the ones on `name` give the dependency's bounds,
/// and those on any other name are dropped); every other predicate is kept, in order.
pub open spec fn other_preds(ps: Seq<WherePredicateV>, name: Seq<char>) -> Seq<WherePredicateV>
    decreases ps.len(),
{
    if ps.len() == 0 {
        Seq::empty()
    } else {
        let r = other_preds(ps.drop_last(), name);
        if pred_on_plain_name(ps.last()) { r } else { r.push(ps.last()) }
    }
}

pub open spec fn is_type_param_named(p: GenericParamV, name: Seq<char>) -> bool {
    p.kind == GenericParamKind::Type && p.ident.name == name
}

/// The first type parameter named `name`.
pub open spec fn first_type_param(ps: Seq<GenericParamV>, name: Seq<char>, m: int) -> bool {
    &&& 0 <= m < ps.len()
    &&& is_type_param_named(ps[m], name)
    &&& forall|j: int| 0 <= j < m ==> !#[trigger] is_type_param_named(ps[j], name)
}

/// With a dependency that needs no lookup: the trait keeps every type and const parameter,
/// and every where predicate.
pub open spec fn with_generics(acc: TraitGenericsV, g: Generics) -> TraitGenericsV {
    TraitGenericsV {
        params: acc.params + kept_params(params_view(g.params@), -1),
        preds: acc.preds + where_preds(g),
    }
}

/// The dependency as found from the type of the first parameter, and the generics kept.
pub open spec fn spec_extract(acc: TraitGenericsV, g: Generics, ty: TypeV) -> Result<(FnDepsV, TraitGenericsV), ErrV>
    decreases ty,
{
    match ty.shape {
        ShapeV::ImplTrait(bounds) => Ok((FnDepsV::Generic { generic_param: None, trait_bounds: bounds }, with_generics(acc, g))),
        ShapeV::Path { qself, leading_colon, segments } => {
            if qself {
                Err(err_at(ty.span, "No self allowed"@))
            } else if leading_colon {
                Err(err_at(ty.span, "No leading colon allowed"@))
            } else if segments.len() != 1 {
                Ok((FnDepsV::Concrete(ty), with_generics(acc, g)))
            } else {
                let name = segments[0].name;
                let ps = params_view(g.params@);
                if exists|m: int| first_type_param(ps, name, m) {
                    let m = choose|m: int| first_type_param(ps, name, m);
                    Ok((
                        FnDepsV::Generic {
                            generic_param: Some(segments[0]),
                            trait_bounds: ps[m].bounds + bounds_from_preds(where_preds(g), name),
                        },
                        TraitGenericsV {
                            params: acc.params + kept_params(ps, m),
                            preds: acc.preds + other_preds(where_preds(g), name),
                        },
                    ))
                } else {
                    Ok((FnDepsV::Concrete(ty), with_generics(acc, g)))
                }
            }
        },
        ShapeV::Reference(elem) => spec_extract(acc, g, *elem),
        ShapeV::Paren(elem) => spec_extract(acc, g, *elem),
        ShapeV::Other => Ok((FnDepsV::Concrete(ty), with_generics(acc, g))),
    }
}

proof fn lemma_kept_params_same(ps1: Seq<GenericParamV>, ps2: Seq<GenericParamV>, m: int)
    requires
        ps1.len() == ps2.len(),
        forall|j: int| 0 <= j < ps1.len() && j != m ==> ps1[j] == ps2[j],
        0 <= m < ps1.len() ==> ps1[m].kind == ps2[m].kind,
    ensures
        kept_params(ps1, m) == kept_params(ps2, m),
    decreases ps1.len(),
{
    if ps1.len() > 0 {
        lemma_kept_params_same(ps1.drop_last(), ps2.drop_last(), m);
    }
}

proof fn lemma_preds_on_param_all_go(ps: Seq<WherePredicateV>, name: Seq<char>)
    requires
        forall|j: int| 0 <= j < ps.len() ==> #[trigger] pred_bounds_param(ps[j], name),
    ensures
        other_preds(ps, name) == Seq::<WherePredicateV>::empty(),
    decreases ps.len(),
{
    if ps.len() > 0 {
        let init = ps.drop_last();
        assert forall|j: int| 0 <= j < init.len() implies #[trigger] pred_bounds_param(init[j], name) by {
            assert(init[j] == ps[j]);
        }
        lemma_preds_on_param_all_go(init, name);
        assert(pred_bounds_param(ps[ps.len() - 1], name));
    }
}

/// When the dependency's type parameter is the function's only generic parameter and every
/// where predicate bounds it, the dependency takes all those bounds (those on the parameter
/// first, then those of the where clause, in order) and the trait is left with no generic
/// parameter and no where predicate.
pub proof fn lemma_dependency_takes_all_generics(g: Generics, ty: TypeV)
    requires
        params_view(g.params@).len() == 1,
        params_view(g.params@)[0].kind == GenericParamKind::Type,
        is_single_ident_path(ty, params_view(g.params@)[0].ident.name),
        forall|j: int| 0 <= j < where_preds(g).len()
            ==> #[trigger] pred_bounds_param(where_preds(g)[j], params_view(g.params@)[0].ident.name),
    ensures
        spec_extract(TraitGenericsV { params: Seq::empty(), preds: Seq::empty() }, g, ty) == Ok::<(FnDepsV, TraitGenericsV), ErrV>((
            FnDepsV::Generic {
                generic_param: Some(ty.shape->Path_segments[0]),
                trait_bounds: params_view(g.params@)[0].bounds + bounds_from_preds(where_preds(g), params_view(g.params@)[0].ident.name),
            },
            TraitGenericsV { params: Seq::empty(), preds: Seq::empty() },
        )),
{
    let ps = params_view(g.params@);
    let name = ps[0].ident.name;
    assert(first_type_param(ps, name, 0));
    let m = choose|k: int| first_type_param(ps, name, k);
    assert(m == 0);
    assert(kept_params(ps.drop_last(), 0) == Seq::<GenericParamV>::empty());
    assert(kept_params(ps, 0) =~= Seq::<GenericParamV>::empty());
    lemma_preds_on_param_all_go(where_preds(g), name);
    assert(Seq::<GenericParamV>::empty() + kept_params(ps, m) =~= Seq::<GenericParamV>::empty());
    assert(Seq::<WherePredicateV>::empty() + other_preds(where_preds(g), name) =~= Seq::<WherePredicateV>::empty());
}

/// The bounds of the dependency's type parameter may be written on the parameter or in a
/// where clause: `fn f<A: B>(deps: &A)` and `fn f<A>(deps: &A) where A: B` give the same
/// dependency, with the same bounds, and keep the same generics.
pub proof fn lemma_inline_and_where_bounds_agree(acc: TraitGenericsV, g1: Generics, g2: Generics, ty: TypeV, m: int, pred: WherePredicateV)
    requires
        0 <= m < params_view(g1.params@).len(),
        is_single_ident_path(ty, params_view(g1.params@)[m].ident.name),
        first_type_param(params_view(g1.params@), params_view(g1.params@)[m].ident.name, m),
        params_view(g1.params@).len() == params_view(g2.params@).len(),
        forall|j: int| 0 <= j < params_view(g1.params@).len() && j != m ==> params_view(g1.params@)[j] == params_view(g2.params@)[j],
        params_view(g2.params@)[m].kind == params_view(g1.params@)[m].kind,
        params_view(g2.params@)[m].ident == params_view(g1.params@)[m].ident,
        params_view(g2.params@)[m].bounds.len() == 0,
        where_preds(g1).len() == 0,
        where_preds(g2) == seq![pred],
        pred_bounds_param(pred, params_view(g1.params@)[m].ident.name),
        pred.bounds == params_view(g1.params@)[m].bounds,
    ensures
        spec_extract(acc, g1, ty) == spec_extract(acc, g2, ty),
{
    let ps1 = params_view(g1.params@);
    let ps2 = params_view(g2.params@);
    let name = ps1[m].ident.name;
    assert(first_type_param(ps2, name, m)) by {
        assert forall|j: int| 0 <= j < m implies !#[trigger] is_type_param_named(ps2[j], name) by {
            assert(ps2[j] == ps1[j]);
        }
    }
    let m1 = choose|k: int| first_type_param(ps1, name, k);
    let m2 = choose|k: int| first_type_param(ps2, name, k);
    assert(m1 == m) by {
        if m1 < m { assert(!is_type_param_named(ps1[m1], name)); }
        if m < m1 { assert(!is_type_param_named(ps1[m], name)); }
    }
    assert(m2 == m) by {
        if m2 < m { assert(!is_type_param_named(ps2[m2], name)); }
        if m < m2 { assert(!is_type_param_named(ps2[m], name)); }
    }
    lemma_kept_params_same(ps1, ps2, m);
    let w2 = where_preds(g2);
    assert(w2.drop_last() =~= Seq::<WherePredicateV>::empty());
    assert(w2.last() == pred);
    assert(bounds_from_preds(where_preds(g1), name) =~= Seq::<Seq<crate::tokens::TokV>>::empty());
    assert(bounds_from_preds(w2.drop_last(), name) =~= Seq::<Seq<crate::tokens::TokV>>::empty());
    assert(bounds_from_preds(w2, name) =~= pred.bounds);
    assert(other_preds(w2.drop_last(), name) =~= Seq::<WherePredicateV>::empty());
    assert(ps1[m].bounds + bounds_from_preds(where_preds(g1), name) =~= ps2[m].bounds + bounds_from_preds(w2, name));
    assert(other_preds(w2, name) =~= other_preds(where_preds(g1), name));
}


pub open spec fn no_receiver_message() -> Seq<char> {
    "Function must have a dependency 'receiver' as its first parameter. Pass `no_deps` to entrait to disable dependency injection."@
}

/// The dependency of a function and the generics kept, from the generics gathered so far.
pub open spec fn spec_analyze_fn_deps(acc: TraitGenericsV, sig: Signature, no_deps: bool) -> Result<(FnDepsV, TraitGenericsV), ErrV> {
    if no_deps {
        Ok((FnDepsV::NoDeps, with_generics(acc, sig.generics)))
    } else if sig.inputs@.len() == 0 {
        Err(err_at(sig.span, no_receiver_message()))
    } else {
        match sig.inputs@[0] {
            FnArg::Receiver { span, .. } => Err(err_at(span, "Function cannot have a self receiver"@)),
            FnArg::Typed { ty, .. } => spec_extract(acc, sig.generics, ty@),
        }
    }
}

/// Gathers the generics of the functions of one trait.
pub struct GenericsAnalyzer {
    pub trait_generics: TraitGenerics,
}

impl GenericsAnalyzer {
    pub fn new() -> (r: GenericsAnalyzer)
        ensures
            r.trait_generics@.params.len() == 0,
            r.trait_generics@.preds.len() == 0,
    {
        GenericsAnalyzer { trait_generics: TraitGenerics { params: Vec::new(), where_predicates: Vec::new() } }
    }

    pub fn into_trait_generics(self) -> (r: TraitGenerics)
        ensures
            r@ == self.trait_generics@,
    {
        self.trait_generics
    }

    fn push_param(&mut self, p: &GenericParam)
        ensures
            final(self).trait_generics@ == (TraitGenericsV { params: old(self).trait_generics@.params.push(p@), preds: old(self).trait_generics@.preds }),
    {
        let ghost before = self.trait_generics.params@;
        self.trait_generics.params.push(p.duplicate());
        assert(params_view(self.trait_generics.params@) =~= params_view(before).push(p@));
    }

    fn push_pred(&mut self, p: &WherePredicate)
        ensures
            final(self).trait_generics@ == (TraitGenericsV { params: old(self).trait_generics@.params, preds: old(self).trait_generics@.preds.push(p@) }),
    {
        let ghost before = self.trait_generics.where_predicates@;
        self.trait_generics.where_predicates.push(p.duplicate());
        assert(preds_view(self.trait_generics.where_predicates@) =~= preds_view(before).push(p@));
    }

    /// Keeps the parameters but the one at `skip`, leaving out lifetimes.
    fn push_params_except(&mut self, params: &Vec<GenericParam>, skip: Option<usize>)
        ensures
            final(self).trait_generics@ == (TraitGenericsV {
                params: old(self).trait_generics@.params + kept_params(params_view(params@), match skip { Some(m) => m as int, None => -1 }),
                preds: old(self).trait_generics@.preds,
            }),
    {
        let ghost skip_i: int = match skip { Some(m) => m as int, None => -1 };
        let ghost ps = params_view(params@);
        let ghost start = self.trait_generics@;
        let mut i: usize = 0;
        while i < params.len()
            invariant
                i <= params@.len(),
                ps == params_view(params@),
                skip_i == match skip { Some(m) => m as int, None => -1 },
                self.trait_generics@ == (TraitGenericsV { params: start.params + kept_params(ps.take(i as int), skip_i), preds: start.preds }),
            decreases params@.len() - i,
        {
            let ghost t = ps.take(i + 1);
            assert(t.drop_last() =~= ps.take(i as int));
            assert(t.last() == params@[i as int]@);
            let skipped = match skip {
                Some(m) => m == i,
                None => false,
            };
            if !skipped && params[i].kind != GenericParamKind::Lifetime {
                self.push_param(&params[i]);
                assert(start.params + kept_params(t, skip_i) =~= start.params + kept_params(ps.take(i as int), skip_i).push(params@[i as int]@));
            }
            i = i + 1;
        }
        assert(ps.take(params@.len() as int) =~= ps);
    }

    fn push_all_preds(&mut self, g: &Generics)
        ensures
            final(self).trait_generics@ == (TraitGenericsV { params: old(self).trait_generics@.params, preds: old(self).trait_generics@.preds + where_preds(*g) }),
    {
        match &g.where_clause {
            None => {
                assert(self.trait_generics@.preds + where_preds(*g) =~= self.trait_generics@.preds);
            },
            Some(w) => {
                let ghost ws = preds_view(w@);
                let ghost start = self.trait_generics@;
                let mut i: usize = 0;
                while i < w.len()
                    invariant
                        i <= w@.len(),
                        ws == preds_view(w@),
                        self.trait_generics@ == (TraitGenericsV { params: start.params, preds: start.preds + ws.take(i as int) }),
                    decreases w@.len() - i,
                {
                    self.push_pred(&w[i]);
                    assert(start.preds + ws.take(i + 1) =~= (start.preds + ws.take(i as int)).push(w@[i as int]@));
                    i = i + 1;
                }
                assert(ws.take(w@.len() as int) =~= ws);
            },
        }
    }

    fn deps_with_generics(&mut self, deps: FnDeps, g: &Generics) -> (r: Result<FnDeps, MacroError>)
        ensures
            r matches Ok(d) && d@ == deps@,
            final(self).trait_generics@ == with_generics(old(self).trait_generics@, *g),
    {
        self.push_params_except(&g.params, None);
        self.push_all_preds(g);
        Ok(deps)
    }
}


fn type_is_single_ident_path(ty: &TypeModel, name: &String) -> (r: bool)
    ensures
        r == is_single_ident_path(ty@, name@),
{
    match &ty.shape {
        TypeShape::Path { qself, leading_colon, segments } => {
            !*qself && !*leading_colon && segments.len() == 1 && str_eq(segments[0].name.as_str(), name.as_str())
        },
        _ => false,
    }
}

fn pred_is_for(p: &WherePredicate, name: &String) -> (r: bool)
    ensures
        r == pred_bounds_param(p@, name@),
{
    match &p.bounded {
        Some(t) => type_is_single_ident_path(t, name),
        None => false,
    }
}

fn pred_is_on_plain_name(p: &WherePredicate) -> (r: bool)
    ensures
        r == pred_on_plain_name(p@),
{
    match &p.bounded {
        Some(t) => match &t.shape {
            TypeShape::Path { qself, leading_colon, segments } => !*qself && !*leading_colon && segments.len() == 1,
            _ => false,
        },
        None => false,
    }
}

fn find_type_param(params: &Vec<GenericParam>, name: &String) -> (r: Option<usize>)
    ensures
        match r {
            Some(m) => first_type_param(params_view(params@), name@, m as int),
            None => !exists|m: int| first_type_param(params_view(params@), name@, m),
        },
{
    let ghost ps = params_view(params@);
    let mut i: usize = 0;
    while i < params.len()
        invariant
            i <= params@.len(),
            ps == params_view(params@),
            forall|j: int| 0 <= j < i ==> !#[trigger] is_type_param_named(ps[j], name@),
        decreases params@.len() - i,
    {
        assert(ps[i as int] == params@[i as int]@);
        if params[i].kind == GenericParamKind::Type && str_eq(params[i].ident.name.as_str(), name.as_str()) {
            return Some(i);
        }
        i = i + 1;
    }
    proof {
        if exists|m: int| first_type_param(ps, name@, m) {
            let m = choose|m: int| first_type_param(ps, name@, m);
            assert(!is_type_param_named(ps[m], name@));
        }
    }
    None
}

fn append_bounds(out: &mut Vec<Bound>, src: &Vec<Bound>)
    ensures
        bounds_view(final(out)@) == bounds_view(old(out)@) + bounds_view(src@),
{
    let ghost start = bounds_view(out@);
    let copy = dup_bounds(src);
    let mut copy = copy;
    let ghost cv = bounds_view(copy@);
    out.append(&mut copy);
    assert(bounds_view(out@) =~= start + cv);
}

impl GenericsAnalyzer {
    /// The bounds of the type parameter `ident`, from its declaration and from where
    /// predicates; the trait keeps the other parameters and predicates.
    fn find_deps_generic_bounds(&mut self, sig: &Signature, ident: &Ident) -> (r: Option<FnDeps>)
        ensures
            ({
                let ps = params_view(sig.generics.params@);
                let name = ident@.name;
                match r {
                    None => !(exists|m: int| first_type_param(ps, name, m)) && final(self).trait_generics@ == old(self).trait_generics@,
                    Some(d) => exists|m: int| {
                        &&& first_type_param(ps, name, m)
                        &&& d@ == FnDepsV::Generic {
                            generic_param: Some(ident@),
                            trait_bounds: ps[m].bounds + bounds_from_preds(where_preds(sig.generics), name),
                        }
                        &&& final(self).trait_generics@ == (TraitGenericsV {
                            params: old(self).trait_generics@.params + kept_params(ps, m),
                            preds: old(self).trait_generics@.preds + other_preds(where_preds(sig.generics), name),
                        })
                    },
                }
            }),
    {
        let generics = &sig.generics;
        let m = match find_type_param(&generics.params, &ident.name) {
            None => return None,
            Some(m) => m,
        };
        self.push_params_except(&generics.params, Some(m));
        let mut deps_trait_bounds = dup_bounds(&generics.params[m].bounds);
        let ghost name = ident@.name;
        let ghost after_params = self.trait_generics@;
        match &generics.where_clause {
            None => {
                assert(bounds_view(deps_trait_bounds@) =~= bounds_view(deps_trait_bounds@) + bounds_from_preds(where_preds(*generics), name));
                assert(after_params.preds + other_preds(where_preds(*generics), name) =~= after_params.preds);
            },
            Some(w) => {
                let ghost ws = preds_view(w@);
                let ghost b0 = bounds_view(deps_trait_bounds@);
                let mut i: usize = 0;
                while i < w.len()
                    invariant
                        i <= w@.len(),
                        ws == preds_view(w@),
                        name == ident@.name,
                        bounds_view(deps_trait_bounds@) == b0 + bounds_from_preds(ws.take(i as int), name),
                        self.trait_generics@ == (TraitGenericsV { params: after_params.params, preds: after_params.preds + other_preds(ws.take(i as int), name) }),
                    decreases w@.len() - i,
                {
                    let ghost t = ws.take(i + 1);
                    assert(t.drop_last() =~= ws.take(i as int));
                    assert(t.last() == w@[i as int]@);
                    if pred_is_for(&w[i], &ident.name) {
                        append_bounds(&mut deps_trait_bounds, &w[i].bounds);
                        assert(b0 + bounds_from_preds(t, name) =~= b0 + bounds_from_preds(ws.take(i as int), name) + w@[i as int]@.bounds);
                    } else if pred_is_on_plain_name(&w[i]) {
                        assert(bounds_from_preds(t, name) == bounds_from_preds(ws.take(i as int), name));
                    } else {
                        self.push_pred(&w[i]);
                        assert(after_params.preds + other_preds(t, name) =~= (after_params.preds + other_preds(ws.take(i as int), name)).push(w@[i as int]@));
                    }
                    i = i + 1;
                }
                assert(ws.take(w@.len() as int) =~= ws);
            },
        }
        Some(FnDeps::Generic { generic_param: Some(ident.duplicate()), trait_bounds: deps_trait_bounds })
    }

    fn extract_deps_from_type(&mut self, sig: &Signature, ty: &TypeModel) -> (r: Result<FnDeps, MacroError>)
        ensures
            match r {
                Ok(d) => spec_extract(old(self).trait_generics@, sig.generics, ty@) == Ok::<(FnDepsV, TraitGenericsV), ErrV>((d@, final(self).trait_generics@)),
                Err(e) => spec_extract(old(self).trait_generics@, sig.generics, ty@) == Err::<(FnDepsV, TraitGenericsV), ErrV>(e@)
                    && final(self).trait_generics@ == old(self).trait_generics@,
            },
        decreases ty,
    {
        match &ty.shape {
            TypeShape::ImplTrait { bounds } => {
                self.deps_with_generics(FnDeps::Generic { generic_param: None, trait_bounds: dup_bounds(bounds) }, &sig.generics)
            },
            TypeShape::Path { qself, leading_colon, segments } => {
                if *qself {
                    return Err(MacroError::new(ty.span, "No self allowed"));
                }
                if *leading_colon {
                    return Err(MacroError::new(ty.span, "No leading colon allowed"));
                }
                if segments.len() != 1 {
                    return self.deps_with_generics(FnDeps::Concrete(Box::new(ty.duplicate())), &sig.generics);
                }
                let first_segment = &segments[0];
                assert(ty@.shape->Path_segments[0] == first_segment@);
                match self.find_deps_generic_bounds(sig, first_segment) {
                    Some(generics) => Ok(generics),
                    None => self.deps_with_generics(FnDeps::Concrete(Box::new(ty.duplicate())), &sig.generics),
                }
            },
            TypeShape::Reference { elem } => self.extract_deps_from_type(sig, &**elem),
            TypeShape::Paren { elem } => self.extract_deps_from_type(sig, &**elem),
            TypeShape::Other => self.deps_with_generics(FnDeps::Concrete(Box::new(ty.duplicate())), &sig.generics),
        }
    }

    /// Finds the dependency of a function from its first parameter.
    pub fn analyze_fn_deps(&mut self, sig: &Signature, opts: &Opts) -> (r: Result<FnDeps, MacroError>)
        ensures
            match r {
                Ok(d) => spec_analyze_fn_deps(old(self).trait_generics@, *sig, flag(opts.no_deps)) == Ok::<(FnDepsV, TraitGenericsV), ErrV>((d@, final(self).trait_generics@)),
                Err(e) => spec_analyze_fn_deps(old(self).trait_generics@, *sig, flag(opts.no_deps)) == Err::<(FnDepsV, TraitGenericsV), ErrV>(e@)
                    && final(self).trait_generics@ == old(self).trait_generics@,
            },
    {
        if opts.no_deps_value() {
            return self.deps_with_generics(FnDeps::NoDeps, &sig.generics);
        }
        if sig.inputs.len() == 0 {
            return Err(MacroError::new(sig.span, "Function must have a dependency 'receiver' as its first parameter. Pass `no_deps` to entrait to disable dependency injection."));
        }
        match &sig.inputs[0] {
            FnArg::Receiver { span, .. } => Err(MacroError::new(*span, "Function cannot have a self receiver")),
            FnArg::Typed { ty, .. } => self.extract_deps_from_type(sig, ty),
        }
    }
}


impl FnDeps {
    pub fn duplicate(&self) -> (r: FnDeps)
        ensures
            r@ == self@,
    {
        match self {
            FnDeps::Generic { generic_param, trait_bounds } => FnDeps::Generic {
                generic_param: match generic_param {
                    Some(i) => Some(i.duplicate()),
                    None => None,
                },
                trait_bounds: dup_bounds(trait_bounds),
            },
            FnDeps::Concrete(t) => FnDeps::Concrete(Box::new((**t).duplicate())),
            FnDeps::NoDeps => FnDeps::NoDeps,
        }
    }
}

impl TraitGenerics {
    pub fn duplicate(&self) -> (r: TraitGenerics)
        ensures
            r@ == self@,
    {
        TraitGenerics { params: crate::model::dup_params(&self.params), where_predicates: crate::model::dup_preds(&self.where_predicates) }
    }
}
} // verus!
