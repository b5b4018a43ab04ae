//! Generic parameters, arguments and where clauses of generated traits and implementations.

use vstd::prelude::*;
use proc_macro2::Span;
use crate::analyze_generics::{FnDeps, TraitGenerics};
use crate::idents::GenericIdents;
use crate::model::{FnArg, GenericParam, GenericParamKind, GenericParamV, Ident, IdentV, Signature, TypeModel, WherePredicateV, bounds_view, params_view, preds_view};
use crate::opt::{AsyncStrategy, Opts, or_default};
use crate::render::{comma, param_items, pred_items, where_toks};
use crate::tokens::{
    Tok, TokV, Spacing, tv, ident_v, punct_v, lifetime_v, path_sep_v, join, punctuated, items_view, push_tok, push_ident,
    push_punct, push_path_sep, push_punctuated, ident_of, lifetime, extend, punct_vec,
};
use crate::trait_fn::{TraitDependencyMode, TraitFn, TraitFnV, fns_view, GenericV, ModeV, generic_view, mode_view};
use crate::converter::receiver_ref;
use crate::model::dup_toks;

verus! {

/// Where the generated implementation of a function lives.
pub enum ImplIndirection<'s> {
    Direct,
    Static { ty: &'s TypeModel },
    Dynamic { ty: &'s TypeModel },
}

/// Which trait is being generated.
#[derive(Clone, Copy, PartialEq, Eq, Structural, Debug)]
pub enum TraitIndirection {
    /// Normal entrait/fn, entrait/mod etc
    Plain,
    /// The trait the attribute was applied to
    Trait,
    /// The static "impl" trait of an entraited trait
    StaticImpl,
    /// The dynamic/borrow "impl" trait of an entraited trait
    DynamicImpl,
}

impl<'s> ImplIndirection<'s> {
    pub open spec fn is_indirect(&self) -> bool {
        !(*self is Direct)
    }

    pub fn to_trait_indirection(&self) -> (r: TraitIndirection)
        ensures
            r == match *self {
                ImplIndirection::Direct => TraitIndirection::Plain,
                ImplIndirection::Static { .. } => TraitIndirection::StaticImpl,
                ImplIndirection::Dynamic { .. } => TraitIndirection::DynamicImpl,
            },
    {
        match self {
            ImplIndirection::Direct => TraitIndirection::Plain,
            ImplIndirection::Static { .. } => TraitIndirection::StaticImpl,
            ImplIndirection::Dynamic { .. } => TraitIndirection::DynamicImpl,
        }
    }
}

/// Whether futures are associated types, which needs dependencies that live forever.
#[derive(Clone, Copy)]
pub struct UseAssociatedFuture(pub bool);

/// Whether some method takes `self` by value, which needs dependencies that are `Send`.
#[derive(Clone, Copy)]
pub struct TakesSelfByValue(pub bool);

pub open spec fn any_async(fns: Seq<TraitFnV>) -> bool {
    exists|i: int| 0 <= i < fns.len() && #[trigger] fns[i].sig.asyncness
}

pub fn has_any_async(fns: &Vec<TraitFn>) -> (r: bool)
    ensures
        r == any_async(fns_view(fns@)),
{
    let ghost fv = fns_view(fns@);
    let mut i: usize = 0;
    while i < fns.len()
        invariant
            i <= fns@.len(),
            fv == fns_view(fns@),
            forall|j: int| 0 <= j < i ==> !#[trigger] fv[j].sig.asyncness,
        decreases fns@.len() - i,
    {
        assert(fv[i as int] == fns@[i as int]@);
        if fns[i].entrait_sig.sig.asyncness {
            assert(fv[i as int].sig.asyncness);
            return true;
        }
        i = i + 1;
    }
    false
}

/// Associated futures are used when asked for and some method is `async`.
pub fn detect_use_associated_future(opts: &Opts, fns: &Vec<TraitFn>) -> (r: UseAssociatedFuture)
    ensures
        r.0 == (or_default(opts.async_strategy, AsyncStrategy::NoHack, opts.default_span).0 == AsyncStrategy::AssociatedFuture
            && any_async(fns_view(fns@))),
{
    let strategy = opts.async_strategy();
    let any = has_any_async(fns);
    UseAssociatedFuture(strategy.0 == AsyncStrategy::AssociatedFuture && any)
}

pub open spec fn takes_self_by_value(s: crate::model::SigV) -> bool {
    s.inputs.len() > 0 && s.inputs[0] is Receiver && receiver_ref(s.inputs[0]) is None
}

pub open spec fn any_self_by_value(fns: Seq<TraitFnV>) -> bool {
    exists|i: int| 0 <= i < fns.len() && takes_self_by_value(#[trigger] fns[i].sig)
}

pub fn has_any_self_by_value(fns: &Vec<TraitFn>) -> (r: TakesSelfByValue)
    ensures
        r.0 == any_self_by_value(fns_view(fns@)),
{
    let ghost fv = fns_view(fns@);
    let mut i: usize = 0;
    while i < fns.len()
        invariant
            i <= fns@.len(),
            fv == fns_view(fns@),
            forall|j: int| 0 <= j < i ==> !takes_self_by_value(#[trigger] fv[j].sig),
        decreases fns@.len() - i,
    {
        let sig = &fns[i].entrait_sig.sig;
        assert(fv[i as int].sig == sig@);
        proof {
            if sig.inputs@.len() > 0 {
                assert(sig@.inputs[0] == sig.inputs@[0]@);
            }
        }
        if sig.inputs.len() > 0 {
            match &sig.inputs[0] {
                FnArg::Receiver { reference: None, .. } => {
                    return TakesSelfByValue(true);
                },
                _ => {},
            }
        }
        i = i + 1;
    }
    TakesSelfByValue(false)
}

/// `::entrait::Impl<EntraitT>`
pub open spec fn impl_path_g(g: GenericV, span: Span) -> Seq<TokV> {
    path_sep_v(span) + seq![ident_v(g.entrait.name, g.entrait.span)] + path_sep_v(span)
        + seq![
            ident_v(g.impl_self.name, g.impl_self.span),
            punct_v('<', Spacing::Alone, span),
            ident_v(g.impl_t.name, g.impl_t.span),
            punct_v('>', Spacing::Alone, span)
        ]
}

fn push_impl_path(out: &mut Vec<Tok>, g: &GenericIdents, span: Span)
    ensures
        tv(final(out)@) == tv(old(out)@) + impl_path_g(generic_view(*g), span),
{
    let ghost base = tv(out@);
    push_path_sep(out, span);
    push_tok(out, ident_of(&g.crate_idents.entrait.name, g.crate_idents.entrait.span));
    push_path_sep(out, span);
    push_tok(out, ident_of(&g.impl_self.name, g.impl_self.span));
    push_punct(out, '<', span);
    push_tok(out, ident_of(&g.impl_t.name, g.impl_t.span));
    push_punct(out, '>', span);
    assert(tv(out@) =~= base + impl_path_g(generic_view(*g), span));
}

/// `EntraitT: Sync + Send + 'static`: `Send` when a method takes `self` by value, `'static`
/// for associated futures.
pub open spec fn impl_t_param_toks(impl_t: IdentV, uaf: bool, tsbv: bool, span: Span) -> Seq<TokV> {
    seq![ident_v(impl_t.name, impl_t.span), punct_v(':', Spacing::Alone, span), ident_v("Sync"@, span)]
        + (if tsbv { seq![punct_v('+', Spacing::Alone, span), ident_v("Send"@, span)] } else { Seq::empty() })
        + (if uaf { seq![punct_v('+', Spacing::Alone, span), lifetime_v("static"@, span)] } else { Seq::empty() })
}

pub open spec fn lt_gt(span: Span) -> (Seq<TokV>, Seq<TokV>) {
    (seq![punct_v('<', Spacing::Alone, span)], seq![punct_v('>', Spacing::Alone, span)])
}

/// Parameters as in `impl<..Param>`: the implementation's type parameter first, if any.
pub open spec fn params_gen_toks(params: Seq<GenericParamV>, impl_t: Option<IdentV>, uaf: bool, tsbv: bool, span: Span) -> Seq<TokV> {
    let first = match impl_t {
        Some(t) => seq![impl_t_param_toks(t, uaf, tsbv, span)],
        None => Seq::empty(),
    };
    punctuated(lt_gt(span).0, first + param_items(params), comma(span), lt_gt(span).1)
}

/// Appends copies of the tokens of each parameter as items.
fn push_param_items(items: &mut Vec<Vec<Tok>>, params: &Vec<GenericParam>)
    ensures
        items_view(final(items)@) == items_view(old(items)@) + param_items(params_view(params@)),
{
    let ghost start = items_view(items@);
    let mut i: usize = 0;
    while i < params.len()
        invariant
            i <= params@.len(),
            items_view(items@) == start + param_items(params_view(params@)).take(i as int),
        decreases params@.len() - i,
    {
        let ghost before = items_view(items@);
        items.push(dup_toks(&params[i].tokens));
        assert(items_view(items@) =~= before.push(tv(params@[i as int].tokens@)));
        assert(param_items(params_view(params@)).take(i + 1) =~= param_items(params_view(params@)).take(i as int).push(tv(params@[i as int].tokens@)));
        i = i + 1;
    }
    assert(param_items(params_view(params@)).take(params@.len() as int) =~= param_items(params_view(params@)));
}

fn push_params_gen(out: &mut Vec<Tok>, params: &Vec<GenericParam>, impl_t: Option<&Ident>, uaf: UseAssociatedFuture, tsbv: TakesSelfByValue, span: Span)
    ensures
        tv(final(out)@) == tv(old(out)@) + params_gen_toks(params_view(params@), match impl_t { Some(t) => Some(t@), None => None }, uaf.0, tsbv.0, span),
{
    let mut items: Vec<Vec<Tok>> = Vec::new();
    let ghost first: Seq<Seq<TokV>> = match impl_t {
        Some(t) => seq![impl_t_param_toks(t@, uaf.0, tsbv.0, span)],
        None => Seq::empty(),
    };
    proof {
        reveal_strlit("Sync");
        reveal_strlit("Send");
        reveal_strlit("static");
    }
    match impl_t {
        Some(t) => {
            let mut item: Vec<Tok> = Vec::new();
            push_tok(&mut item, ident_of(&t.name, t.span));
            push_punct(&mut item, ':', span);
            push_ident(&mut item, "Sync", span);
            let ghost a = tv(item@);
            if tsbv.0 {
                push_punct(&mut item, '+', span);
                push_ident(&mut item, "Send", span);
            }
            let ghost b = tv(item@);
            if uaf.0 {
                push_punct(&mut item, '+', span);
                push_tok(&mut item, lifetime(&crate::text::owned("static"), span));
            }
            assert(tv(item@) =~= impl_t_param_toks(t@, uaf.0, tsbv.0, span));
            items.push(item);
            assert(items_view(items@) =~= first);
        },
        None => {
            assert(items_view(items@) =~= first);
        },
    }
    push_param_items(&mut items, params);
    push_punctuated(out, punct_vec('<', span), &items, punct_vec(',', span), punct_vec('>', span));
}

/// One argument per parameter: its name, or its lifetime.
pub open spec fn arg_of_param(p: GenericParamV) -> Seq<TokV> {
    match p.kind {
        GenericParamKind::Lifetime => seq![lifetime_v(p.ident.name, p.ident.span)],
        _ => seq![ident_v(p.ident.name, p.ident.span)],
    }
}

/// Arguments as in `impl<..Param> T for U<..Arg>`; an indirect implementation passes `EntraitT` first.
pub open spec fn arguments_toks(params: Seq<GenericParamV>, indirect: bool, span: Span) -> Seq<TokV> {
    let first: Seq<Seq<TokV>> = if indirect { seq![seq![ident_v("EntraitT"@, span)]] } else { Seq::empty() };
    punctuated(lt_gt(span).0, first + params.map_values(|p: GenericParamV| arg_of_param(p)), comma(span), lt_gt(span).1)
}

fn push_arguments(out: &mut Vec<Tok>, params: &Vec<GenericParam>, indirection: &ImplIndirection, span: Span)
    ensures
        tv(final(out)@) == tv(old(out)@) + arguments_toks(params_view(params@), indirection.is_indirect(), span),
{
    let mut items: Vec<Vec<Tok>> = Vec::new();
    proof { reveal_strlit("EntraitT"); }
    let indirect = match indirection {
        ImplIndirection::Direct => false,
        _ => true,
    };
    if indirect {
        let mut item: Vec<Tok> = Vec::new();
        push_ident(&mut item, "EntraitT", span);
        assert(tv(item@) =~= seq![ident_v("EntraitT"@, span)]);
        items.push(item);
    }
    let ghost first: Seq<Seq<TokV>> = if indirect { seq![seq![ident_v("EntraitT"@, span)]] } else { Seq::empty() };
    assert(items_view(items@) =~= first);
    let ghost all = params_view(params@).map_values(|p: GenericParamV| arg_of_param(p));
    let mut i: usize = 0;
    while i < params.len()
        invariant
            i <= params@.len(),
            all == params_view(params@).map_values(|p: GenericParamV| arg_of_param(p)),
            items_view(items@) == first + all.take(i as int),
        decreases params@.len() - i,
    {
        let p = &params[i];
        let mut item: Vec<Tok> = Vec::new();
        match p.kind {
            GenericParamKind::Lifetime => push_tok(&mut item, lifetime(&p.ident.name, p.ident.span)),
            _ => push_tok(&mut item, ident_of(&p.ident.name, p.ident.span)),
        }
        assert(tv(item@) =~= arg_of_param(p@));
        let ghost before = items_view(items@);
        items.push(item);
        assert(items_view(items@) =~= before.push(arg_of_param(params@[i as int]@)));
        assert(all.take(i + 1) =~= all.take(i as int).push(all[i as int]));
        i = i + 1;
    }
    assert(all.take(params@.len() as int) =~= all);
    push_punctuated(out, punct_vec('<', span), &items, punct_vec(',', span), punct_vec('>', span));
}

/// The where clause of a generated trait: nothing without predicates.
pub open spec fn trait_where_toks(preds: Seq<WherePredicateV>, span: Span) -> Seq<TokV> {
    if preds.len() == 0 { Seq::empty() } else { where_toks(preds, span) }
}

fn pred_token_items(preds: &Vec<crate::model::WherePredicate>, items: &mut Vec<Vec<Tok>>)
    ensures
        items_view(final(items)@) == items_view(old(items)@) + pred_items(preds_view(preds@)),
{
    let ghost start = items_view(items@);
    let ghost all = pred_items(preds_view(preds@));
    let mut i: usize = 0;
    while i < preds.len()
        invariant
            i <= preds@.len(),
            all == pred_items(preds_view(preds@)),
            items_view(items@) == start + all.take(i as int),
        decreases preds@.len() - i,
    {
        let ghost before = items_view(items@);
        items.push(dup_toks(&preds[i].tokens));
        assert(items_view(items@) =~= before.push(all[i as int]));
        assert(all.take(i + 1) =~= all.take(i as int).push(all[i as int]));
        i = i + 1;
    }
    assert(all.take(preds@.len() as int) =~= all);
}

fn push_trait_where(out: &mut Vec<Tok>, preds: &Vec<crate::model::WherePredicate>, span: Span)
    ensures
        tv(final(out)@) == tv(old(out)@) + trait_where_toks(preds_view(preds@), span),
{
    let ghost base = tv(out@);
    if preds.len() == 0 {
        assert(tv(out@) =~= base + trait_where_toks(preds_view(preds@), span));
        return;
    }
    proof { reveal_strlit("where"); }
    push_ident(out, "where", span);
    let mut items: Vec<Vec<Tok>> = Vec::new();
    pred_token_items(preds, &mut items);
    assert(items_view(items@) =~= pred_items(preds_view(preds@)));
    crate::tokens::push_joined(out, &items, punct_vec(',', span));
    assert(tv(out@) =~= base + trait_where_toks(preds_view(preds@), span));
}

/// The bounds that the functions' generic dependencies ask for, in order.
pub open spec fn dep_bounds(fns: Seq<TraitFnV>) -> Seq<Seq<TokV>>
    decreases fns.len(),
{
    if fns.len() == 0 {
        Seq::empty()
    } else {
        dep_bounds(fns.drop_last()) + match fns.last().deps {
            crate::analyze_generics::FnDepsV::Generic { trait_bounds, .. } => trait_bounds,
            _ => Seq::empty(),
        }
    }
}

/// `target: A + B + ...` with the bounds of all dependencies.
pub open spec fn impl_t_bounds_toks(target: Seq<TokV>, fns: Seq<TraitFnV>, span: Span) -> Seq<TokV> {
    punctuated(target + seq![punct_v(':', Spacing::Alone, span)], dep_bounds(fns), seq![punct_v('+', Spacing::Alone, span)], Seq::empty())
}

/// What the bounds are put on: `Self`, or the `Impl<T>` of an indirect implementation.
pub open spec fn bound_target(g: GenericV, indirect: bool, span: Span) -> Seq<TokV> {
    if indirect { impl_path_g(g, span) } else { seq![ident_v("Self"@, span)] }
}

/// The where clause of a generated implementation: with a generic dependency, the bounds of
/// the functions' dependencies come first; then the trait's own predicates.
pub open spec fn impl_where_toks(preds: Seq<WherePredicateV>, mode: ModeV, indirect: bool, fns: Seq<TraitFnV>, span: Span) -> Seq<TokV> {
    let first: Seq<Seq<TokV>> = match mode {
        ModeV::Generic(g) => if dep_bounds(fns).len() > 0 {
            seq![impl_t_bounds_toks(bound_target(g, indirect, span), fns, span)]
        } else {
            Seq::empty()
        },
        ModeV::Concrete(_) => Seq::empty(),
    };
    punctuated(seq![ident_v("where"@, span)], first + pred_items(preds), comma(span), Seq::empty())
}

fn collect_dep_bounds(fns: &Vec<TraitFn>) -> (r: Vec<Vec<Tok>>)
    ensures
        items_view(r@) == dep_bounds(fns_view(fns@)),
{
    let ghost fv = fns_view(fns@);
    let mut r: Vec<Vec<Tok>> = Vec::new();
    let mut i: usize = 0;
    assert(fv.take(0) =~= Seq::<TraitFnV>::empty());
    while i < fns.len()
        invariant
            i <= fns@.len(),
            fv == fns_view(fns@),
            items_view(r@) == dep_bounds(fv.take(i as int)),
        decreases fns@.len() - i,
    {
        let ghost t = fv.take(i + 1);
        assert(t.drop_last() =~= fv.take(i as int));
        assert(t.last() == fns@[i as int]@);
        match &fns[i].deps {
            FnDeps::Generic { trait_bounds, .. } => {
                let ghost start = items_view(r@);
                let mut j: usize = 0;
                while j < trait_bounds.len()
                    invariant
                        j <= trait_bounds@.len(),
                        items_view(r@) == start + bounds_view(trait_bounds@).take(j as int),
                    decreases trait_bounds@.len() - j,
                {
                    let ghost before = items_view(r@);
                    r.push(dup_toks(&trait_bounds[j].tokens));
                    assert(items_view(r@) =~= before.push(bounds_view(trait_bounds@)[j as int]));
                    assert(bounds_view(trait_bounds@).take(j + 1) =~= bounds_view(trait_bounds@).take(j as int).push(bounds_view(trait_bounds@)[j as int]));
                    j = j + 1;
                }
                assert(bounds_view(trait_bounds@).take(trait_bounds@.len() as int) =~= bounds_view(trait_bounds@));
            },
            _ => {
                assert(items_view(r@) =~= dep_bounds(t));
            },
        }
        i = i + 1;
    }
    assert(fv.take(fns@.len() as int) =~= fv);
    r
}

fn push_impl_where(out: &mut Vec<Tok>, preds: &Vec<crate::model::WherePredicate>, mode: &TraitDependencyMode, indirection: &ImplIndirection, fns: &Vec<TraitFn>, span: Span)
    ensures
        tv(final(out)@) == tv(old(out)@) + impl_where_toks(preds_view(preds@), mode_view(*mode), indirection.is_indirect(), fns_view(fns@), span),
{
    proof {
        reveal_strlit("where");
        reveal_strlit("Self");
    }
    let mut items: Vec<Vec<Tok>> = Vec::new();
    let bounds = collect_dep_bounds(fns);
    let ghost spec_first: Seq<Seq<TokV>> = match mode_view(*mode) {
        ModeV::Generic(g) => if dep_bounds(fns_view(fns@)).len() > 0 {
            seq![impl_t_bounds_toks(bound_target(g, indirection.is_indirect(), span), fns_view(fns@), span)]
        } else {
            Seq::empty()
        },
        ModeV::Concrete(_) => Seq::empty(),
    };
    match mode {
        TraitDependencyMode::Generic(g) => {
            if bounds.len() > 0 {
                let mut start: Vec<Tok> = Vec::new();
                match indirection {
                    ImplIndirection::Direct => push_ident(&mut start, "Self", span),
                    _ => push_impl_path(&mut start, g, span),
                }
                assert(tv(start@) =~= bound_target(generic_view(*g), indirection.is_indirect(), span));
                push_punct(&mut start, ':', span);
                let mut item: Vec<Tok> = Vec::new();
                push_punctuated(&mut item, start, &bounds, punct_vec('+', span), Vec::new());
                assert(tv(Seq::<Tok>::empty()) =~= Seq::<TokV>::empty());
                assert(tv(item@) =~= impl_t_bounds_toks(bound_target(generic_view(*g), indirection.is_indirect(), span), fns_view(fns@), span));
                items.push(item);
            }
        },
        TraitDependencyMode::Concrete(_) => {},
    }
    assert(items_view(items@) =~= spec_first);
    let ghost first = items_view(items@);
    pred_token_items(preds, &mut items);
    let mut start: Vec<Tok> = Vec::new();
    push_ident(&mut start, "where", span);
    assert(tv(start@) =~= seq![ident_v("where"@, span)]);
    push_punctuated(out, start, &items, punct_vec(',', span), Vec::new());
    assert(tv(Seq::<Tok>::empty()) =~= Seq::<TokV>::empty());
}

impl TraitGenerics {
    /// Parameters of the trait itself.
    pub fn trait_params(&self, out: &mut Vec<Tok>, span: Span)
        ensures
            tv(final(out)@) == tv(old(out)@) + params_gen_toks(params_view(self.params@), None, false, false, span),
    {
        push_params_gen(out, &self.params, None, UseAssociatedFuture(false), TakesSelfByValue(false), span);
    }

    /// Parameters of a generated implementation: `EntraitT` comes first with a generic dependency.
    pub fn impl_params(&self, out: &mut Vec<Tok>, mode: &TraitDependencyMode, uaf: UseAssociatedFuture, tsbv: TakesSelfByValue, span: Span)
        ensures
            tv(final(out)@) == tv(old(out)@) + params_gen_toks(
                params_view(self.params@),
                match *mode {
                    TraitDependencyMode::Generic(g) => Some(g.impl_t@),
                    TraitDependencyMode::Concrete(_) => None,
                },
                uaf.0,
                tsbv.0,
                span,
            ),
    {
        match mode {
            TraitDependencyMode::Generic(g) => push_params_gen(out, &self.params, Some(&g.impl_t), uaf, tsbv, span),
            TraitDependencyMode::Concrete(_) => push_params_gen(out, &self.params, None, uaf, tsbv, span),
        }
    }
    /// Parameters of an implementation for `Impl<EntraitT>`: `EntraitT` first.
    pub fn impl_params_from_idents(&self, out: &mut Vec<Tok>, generic_idents: &GenericIdents, tsbv: TakesSelfByValue, span: Span)
        ensures
            tv(final(out)@) == tv(old(out)@) + params_gen_toks(params_view(self.params@), Some(generic_view(*generic_idents).impl_t), false, tsbv.0, span),
    {
        push_params_gen(out, &self.params, Some(&generic_idents.impl_t), UseAssociatedFuture(false), tsbv, span);
    }

    /// The trait's generic arguments, as in `impl<..> T<..Args> for ..`.
    pub fn arguments(&self, out: &mut Vec<Tok>, indirection: &ImplIndirection, span: Span)
        ensures
            tv(final(out)@) == tv(old(out)@) + arguments_toks(params_view(self.params@), indirection.is_indirect(), span),
    {
        push_arguments(out, &self.params, indirection, span);
    }

    /// The where clause of the trait, if it has predicates.
    pub fn trait_where_clause(&self, out: &mut Vec<Tok>, span: Span)
        ensures
            tv(final(out)@) == tv(old(out)@) + trait_where_toks(preds_view(self.where_predicates@), span),
    {
        push_trait_where(out, &self.where_predicates, span);
    }

    /// The where clause of a generated implementation: the bounds the dependencies ask for,
    /// then the trait's own predicates.
    pub fn impl_where_clause(&self, out: &mut Vec<Tok>, trait_fns: &Vec<TraitFn>, mode: &TraitDependencyMode, indirection: &ImplIndirection, span: Span)
        ensures
            tv(final(out)@) == tv(old(out)@) + impl_where_toks(preds_view(self.where_predicates@), mode_view(*mode), indirection.is_indirect(), fns_view(trait_fns@), span),
    {
        push_impl_where(out, &self.where_predicates, mode, indirection, trait_fns, span);
    }
}

impl GenericIdents {
    /// `::entrait::Impl<EntraitT>`
    pub fn impl_path(&self, out: &mut Vec<Tok>, span: Span)
        ensures
            tv(final(out)@) == tv(old(out)@) + impl_path_g(generic_view(*self), span),
    {
        push_impl_path(out, self, span);
    }
}

} // verus!
