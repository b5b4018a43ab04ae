//! `entrait` on a trait: the trait, an implementation for `Impl<T>` that delegates, and the
//! traits through which a delegation target implements it.

use vstd::prelude::*;
use proc_macro2::Span;
use crate::analyze_generics::{FnDeps, FnDepsV, TraitGenerics, TraitGenericsV};
use crate::attributes::{ident_args, ident_arg_items};
use crate::converter::{impl_param_v, receiver_ref, typed_args_plain};
use crate::error::{ErrV, MacroError};
use crate::fn_delegation_codegen::{all_fns_plain, push_impl_level_subs, impl_level_subs};
use crate::generics::{
    ImplIndirection, TakesSelfByValue, TraitIndirection, UseAssociatedFuture, arguments_toks, impl_path_g,
    params_gen_toks,
};
use crate::idents::{CrateIdents, GenericIdents};
use crate::input_attr::{EntraitTraitAttr, ImplTrait};
use crate::model::{
    FnArg, FnArgV, GenericParam, GenericParamKind, GenericParamV, Generics, Ident, IdentV, LifetimeSlot, SigV,
    Signature, SlotKind, SlotV, Visibility, WherePredicate, WherePredicateV, args_view, bounds_view, params_view,
    preds_view, dup_params, dup_preds,
};
use crate::opt::{Delegate, DelegateV, Opts, RefDelegate, SpanOpt};
use crate::render::{comma, pred_items, push_sig, sig_toks};
use crate::signature::EntraitSignature;
use crate::sub_attributes::{SubAttribute, analyze_sub_attributes};
use crate::tokens::{
    Delimiter, Spacing, Tok, TokV, tv, ident_v, punct_v, open_v, close_v, lifetime_v, path_sep_v, join, punctuated,
    items_view, extend, push_tok, push_ident, push_punct, push_path_sep, push_open, push_close, push_joined,
    push_punctuated, ident_of, lifetime, punct_vec, lemma_add_assoc, lemma_push_add,
};
use crate::trait_codegen::{Supertraits, TraitCodegen, trait_def_spec};
use crate::trait_fn::{
    FnInputMode, GenericV, InputModeV, ModeV, TraitDependencyMode, TraitFn, TraitFnV, dot_await, fns_view,
    generic_at, generic_view, mode_view,
};
use crate::text::owned;

verus! {

/// An item of a trait: a method, an associated type, or anything else.
pub enum TraitItem {
    Fn { attrs: Vec<Tok>, sig: Signature },
    Type { tokens: Vec<Tok> },
    Other { span: Span },
}

/// A trait the macro is applied to.
pub struct InputTrait {
    /// Each attribute as written.
    pub attrs: Vec<Vec<Tok>>,
    pub vis: Visibility,
    /// The span of `unsafe`, if written; the generated trait does not repeat it.
    pub unsafety: Option<Span>,
    /// The span of `auto`, if written; the generated trait does not repeat it.
    pub auto_token: Option<Span>,
    pub ident: Ident,
    pub generics: Generics,
    pub supertraits: Supertraits,
    pub items: Vec<TraitItem>,
}

/// The trait as the generated code sees it.
pub struct OutTrait {
    pub attrs: Vec<Vec<Tok>>,
    pub vis: Visibility,
    pub generics: TraitGenerics,
    pub ident: Ident,
    pub supertraits: Supertraits,
    /// The associated types, as written, one after the other.
    pub assoc_types: Vec<Tok>,
    pub fns: Vec<TraitFn>,
}

/// The associated types of a trait, as written, one after the other.
pub open spec fn spec_assoc_types(items: Seq<TraitItem>) -> Seq<TokV>
    decreases items.len(),
{
    if items.len() == 0 {
        Seq::empty()
    } else {
        match items.last() {
            TraitItem::Type { tokens } => spec_assoc_types(items.drop_last()) + tv(tokens@),
            _ => spec_assoc_types(items.drop_last()),
        }
    }
}

pub open spec fn unsupported_item_message() -> Seq<char> {
    "Entrait does not support this kind of trait item."@
}

/// The methods of a trait, without dependency; an item that is neither a method nor an
/// associated type is an error. Associated types are kept apart, in `spec_assoc_types`.
pub open spec fn spec_trait_fns(items: Seq<TraitItem>) -> Result<Seq<TraitFnV>, ErrV>
    decreases items.len(),
{
    if items.len() == 0 {
        Ok(Seq::empty())
    } else {
        match spec_trait_fns(items.drop_last()) {
            Err(e) => Err(e),
            Ok(fns) => match items.last() {
                TraitItem::Fn { attrs, sig } => Ok(fns.push(TraitFnV { deps: FnDepsV::NoDeps, attrs: tv(attrs@), sig: sig@, originally_async: sig.asyncness })),
                TraitItem::Type { .. } => Ok(fns),
                TraitItem::Other { span } => Err(crate::attr_parse::err_at(span, unsupported_item_message())),
            },
        }
    }
}

pub open spec fn where_of(g: Generics) -> Seq<WherePredicateV> {
    crate::analyze_generics::where_preds(g)
}

/// Reads the methods, generics and supertraits of a trait.
pub fn analyze_trait(item_trait: InputTrait) -> (r: Result<OutTrait, MacroError>)
    ensures
        match spec_trait_fns(item_trait.items@) {
            Ok(fns) => r matches Ok(o) && fns_view(o.fns@) == fns
                && o.attrs == item_trait.attrs && o.vis == item_trait.vis && o.ident == item_trait.ident
                && o.supertraits == item_trait.supertraits
                && tv(o.assoc_types@) == spec_assoc_types(item_trait.items@)
                && o.generics@ == (TraitGenericsV { params: params_view(item_trait.generics.params@), preds: where_of(item_trait.generics) }),
            Err(e) => r matches Err(x) && x@ == e,
        },
{
    let InputTrait { attrs, vis, ident, generics, supertraits, items, .. } = item_trait;
    let ghost iv = items@;
    let n = items.len();
    let mut rest = items;
    let mut fns: Vec<TraitFn> = Vec::new();
    let mut assoc_types: Vec<Tok> = Vec::new();
    let mut i: usize = 0;
    assert(iv.take(0) =~= Seq::<TraitItem>::empty());
    assert(fns_view(fns@) =~= Seq::<TraitFnV>::empty());
    assert(tv(assoc_types@) =~= spec_assoc_types(iv.take(0)));
    while i < n
        invariant
            n == iv.len(),
            iv == item_trait.items@,
            i <= n,
            rest@.len() == n - i,
            forall|j: int| 0 <= j < n - i ==> #[trigger] rest@[j] == iv[j + i],
            spec_trait_fns(iv.take(i as int)) == Ok::<Seq<TraitFnV>, ErrV>(fns_view(fns@)),
            tv(assoc_types@) == spec_assoc_types(iv.take(i as int)),
        decreases n - i,
    {
        let item = rest.remove(0);
        let ghost t = iv.take(i + 1);
        assert(t.drop_last() =~= iv.take(i as int));
        assert(t.last() == item);
        let ghost before = fns_view(fns@);
        match item {
            TraitItem::Fn { attrs, sig } => {
                let originally_async = sig.asyncness;
                let f = TraitFn { deps: FnDeps::NoDeps, attrs, entrait_sig: EntraitSignature::new(sig), originally_async };
                fns.push(f);
                assert(fns_view(fns@) =~= before.push(fns@[fns@.len() - 1]@));
            },
            TraitItem::Type { tokens } => {
                extend(&mut assoc_types, &tokens);
            },
            TraitItem::Other { span } => {
                proof {
                    assert(spec_trait_fns(t) == Err::<Seq<TraitFnV>, ErrV>(crate::attr_parse::err_at(span, unsupported_item_message())));
                    lemma_trait_error_stays(iv, i as int + 1);
                }
                return Err(MacroError::new(span, "Entrait does not support this kind of trait item."));
            },
        }
        i = i + 1;
    }
    assert(iv.take(n as int) =~= iv);
    let where_predicates = match generics.where_clause {
        Some(w) => w,
        None => Vec::new(),
    };
    let ghost wp = preds_view(where_predicates@);
    proof {
        if wp.len() == 0 {
            assert(wp =~= Seq::<WherePredicateV>::empty());
        }
    }
    let o = OutTrait {
        attrs,
        vis,
        generics: TraitGenerics { params: generics.params, where_predicates },
        ident,
        supertraits,
        assoc_types,
        fns,
    };
    Ok(o)
}

proof fn lemma_trait_error_stays(items: Seq<TraitItem>, k: int)
    requires
        0 <= k <= items.len(),
    ensures
        spec_trait_fns(items.take(k)) is Err ==> spec_trait_fns(items) == spec_trait_fns(items.take(k)),
    decreases items.len() - k,
{
    if k < items.len() {
        lemma_trait_error_stays(items, k + 1);
        assert(items.take(k + 1).drop_last() =~= items.take(k));
    } else {
        assert(items.take(k) =~= items);
    }
}

/// `EntraitT` as the first generic parameter.
pub open spec fn entrait_t_param(span: Span) -> GenericParamV {
    GenericParamV {
        kind: GenericParamKind::Type,
        ident: IdentV { name: "EntraitT"@, span },
        bounds: Seq::empty(),
        tokens: seq![ident_v("EntraitT"@, span)],
    }
}

/// In the static implementation trait, the receiver becomes the `__impl` parameter.
pub open spec fn static_impl_fn(f: TraitFnV, entrait: IdentV, span: Span) -> TraitFnV {
    if f.sig.inputs.len() > 0 && f.sig.inputs[0] is Receiver {
        TraitFnV { sig: SigV { inputs: f.sig.inputs.update(0, impl_param_v(receiver_ref(f.sig.inputs[0]), entrait, span)), ..f.sig }, ..f }
    } else {
        f
    }
}

/// In the dynamic implementation trait, the `__impl` parameter follows the receiver.
pub open spec fn dynamic_impl_fn(f: TraitFnV, entrait: IdentV, span: Span) -> TraitFnV {
    if f.sig.inputs.len() > 0 && f.sig.inputs[0] is Receiver {
        TraitFnV {
            sig: SigV {
                inputs: f.sig.inputs.insert(1, impl_param_v(Some(SlotV { kind: SlotKind::Reference, name: None }), entrait, span)),
                ..f.sig
            },
            ..f
        }
    } else {
        f
    }
}

pub open spec fn no_mock(opts: Opts) -> Opts {
    Opts { mock_api: None, unimock: None, mockall: None, ..opts }
}

/// `: 'static`
pub open spec fn static_supertraits_toks(span: Span) -> Seq<TokV> {
    seq![punct_v(':', Spacing::Alone, span), lifetime_v("static"@, span)]
}

fn static_supertraits(span: Span) -> (r: Supertraits)
    ensures
        crate::trait_codegen::supertraits_toks(r) == static_supertraits_toks(span),
{
    let mut bounds: Vec<Tok> = Vec::new();
    push_tok(&mut bounds, lifetime(&owned("static"), span));
    proof { reveal_strlit("static"); }
    let r = Supertraits::Bounds { colon_span: span, bounds };
    assert(crate::trait_codegen::supertraits_toks(r) =~= static_supertraits_toks(span));
    r
}

/// `pub trait Delegate<T> { type Target: ImplTrait<T>; }`
pub open spec fn delegation_trait_toks(delegation: IdentV, impl_trait: IdentV, span: Span) -> Seq<TokV> {
    seq![
        ident_v("pub"@, span), ident_v("trait"@, span), ident_v(delegation.name, delegation.span),
        punct_v('<', Spacing::Alone, span), ident_v("T"@, span), punct_v('>', Spacing::Alone, span),
        open_v(Delimiter::Brace, span),
        ident_v("type"@, span), ident_v("Target"@, span), punct_v(':', Spacing::Alone, span),
        ident_v(impl_trait.name, impl_trait.span),
        punct_v('<', Spacing::Alone, span), ident_v("T"@, span), punct_v('>', Spacing::Alone, span),
        punct_v(';', Spacing::Alone, span),
        close_v(Delimiter::Brace, span)
    ]
}


fn entrait_t(span: Span) -> (p: GenericParam)
    ensures
        p@ == entrait_t_param(span),
{
    let mut tokens: Vec<Tok> = Vec::new();
    push_ident(&mut tokens, "EntraitT", span);
    proof { reveal_strlit("EntraitT"); }
    let p = GenericParam { kind: GenericParamKind::Type, ident: Ident { name: owned("EntraitT"), span }, bounds: Vec::new(), tokens };
    assert(bounds_view(p.bounds@) =~= Seq::<Seq<TokV>>::empty());
    assert(tv(p.tokens@) =~= seq![ident_v("EntraitT"@, span)]);
    p
}

/// The generics of an implementation trait: `EntraitT` first.
fn generics_with_entrait_t(tg: &TraitGenerics, span: Span) -> (r: TraitGenerics)
    ensures
        r@ == (TraitGenericsV { params: seq![entrait_t_param(span)] + tg@.params, preds: tg@.preds }),
{
    let mut params: Vec<GenericParam> = Vec::new();
    params.push(entrait_t(span));
    let mut rest = dup_params(&tg.params);
    let ghost first = params_view(params@);
    assert(first =~= seq![entrait_t_param(span)]);
    let ghost second = params_view(rest@);
    params.append(&mut rest);
    assert(params_view(params@) =~= first + second);
    let r = TraitGenerics { params, where_predicates: dup_preds(&tg.where_predicates) };
    assert(r@.params == seq![entrait_t_param(span)] + tg@.params);
    r
}

/// The methods of the static implementation trait.
fn static_impl_fns(fns: &Vec<TraitFn>, entrait: &Ident, span: Span) -> (r: Vec<TraitFn>)
    ensures
        fns_view(r@) == fns_view(fns@).map_values(|f: TraitFnV| static_impl_fn(f, entrait@, span)),
{
    let mut r: Vec<TraitFn> = Vec::new();
    let mut i: usize = 0;
    while i < fns.len()
        invariant
            i <= fns@.len(),
            r@.len() == i,
            forall|j: int| 0 <= j < i ==> #[trigger] r@[j]@ == static_impl_fn(fns@[j]@, entrait@, span),
        decreases fns@.len() - i,
    {
        let f = &fns[i];
        let mut sig = f.sig().duplicate();
        let is_receiver = sig.inputs.len() > 0 && match &sig.inputs[0] {
            FnArg::Receiver { .. } => true,
            _ => false,
        };
        proof {
            if sig.inputs@.len() > 0 {
                assert(sig@.inputs[0] == sig.inputs@[0]@);
            }
        }
        if is_receiver {
            let ghost a0 = args_view(sig.inputs@);
            let first = sig.inputs.remove(0);
            let reference = match first {
                FnArg::Receiver { reference, .. } => reference,
                _ => None,
            };
            sig.inputs.insert(0, crate::converter::impl_param(reference, entrait, span));
            assert(args_view(sig.inputs@) =~= a0.update(0, impl_param_v(receiver_ref(a0[0]), entrait@, span)));
        }
        let g = TraitFn { deps: f.deps.duplicate(), attrs: crate::model::dup_toks(&f.attrs), entrait_sig: EntraitSignature::new(sig), originally_async: f.originally_async };
        r.push(g);
        i = i + 1;
    }
    assert(fns_view(r@) =~= fns_view(fns@).map_values(|f: TraitFnV| static_impl_fn(f, entrait@, span)));
    r
}

/// The methods of the dynamic implementation trait.
fn dynamic_impl_fns(fns: &Vec<TraitFn>, entrait: &Ident, span: Span) -> (r: Vec<TraitFn>)
    ensures
        fns_view(r@) == fns_view(fns@).map_values(|f: TraitFnV| dynamic_impl_fn(f, entrait@, span)),
{
    let mut r: Vec<TraitFn> = Vec::new();
    let mut i: usize = 0;
    while i < fns.len()
        invariant
            i <= fns@.len(),
            r@.len() == i,
            forall|j: int| 0 <= j < i ==> #[trigger] r@[j]@ == dynamic_impl_fn(fns@[j]@, entrait@, span),
        decreases fns@.len() - i,
    {
        let f = &fns[i];
        let mut sig = f.sig().duplicate();
        let is_receiver = sig.inputs.len() > 0 && match &sig.inputs[0] {
            FnArg::Receiver { .. } => true,
            _ => false,
        };
        proof {
            if sig.inputs@.len() > 0 {
                assert(sig@.inputs[0] == sig.inputs@[0]@);
            }
        }
        if is_receiver {
            let ghost a0 = args_view(sig.inputs@);
            sig.inputs.insert(1, crate::converter::impl_param(Some(LifetimeSlot { kind: SlotKind::Reference, name: None }), entrait, span));
            assert(args_view(sig.inputs@) =~= a0.insert(1, impl_param_v(Some(SlotV { kind: SlotKind::Reference, name: None }), entrait@, span)));
        }
        let g = TraitFn { deps: f.deps.duplicate(), attrs: crate::model::dup_toks(&f.attrs), entrait_sig: EntraitSignature::new(sig), originally_async: f.originally_async };
        r.push(g);
        i = i + 1;
    }
    assert(fns_view(r@) =~= fns_view(fns@).map_values(|f: TraitFnV| dynamic_impl_fn(f, entrait@, span)));
    r
}

pub open spec fn missing_delegate_message() -> Seq<char> {
    "Missing delegate_by"@
}

/// The traits generated for the implementations of an entraited trait, if it names one: the
/// static one with its delegation trait, or the dynamic one.
pub open spec fn spec_delegation_defs(
    attr: EntraitTraitAttr,
    fns: Seq<TraitFnV>,
    tg: TraitGenericsV,
    g: GenericV,
    vis: Seq<TokV>,
    impl_attrs: Seq<TokV>,
    async_attr: bool,
    gen_span: Span,
) -> Result<Option<Seq<TokV>>, ErrV> {
    let c = attr.crate_idents;
    let tg2 = TraitGenericsV { params: seq![entrait_t_param(gen_span)] + tg.params, preds: tg.preds };
    match attr.impl_trait {
        None => Ok(None),
        Some(ImplTrait(_, it)) => match attr.delegation_kind {
            Some(SpanOpt(Delegate::ByTrait(d), _)) => Ok(Some(
                impl_attrs
                    + trait_def_spec(no_mock(attr.opts), c, TraitIndirection::StaticImpl, ModeV::Generic(g), impl_attrs, async_attr, vis, it@, tg2,
                        static_supertraits_toks(gen_span), Seq::empty(), fns.map_values(|f: TraitFnV| static_impl_fn(f, c.entrait@, gen_span)), InputModeV::RawTrait)
                    + delegation_trait_toks(d@, it@, gen_span),
            )),
            Some(SpanOpt(Delegate::ByRef(_), _)) => Ok(Some(
                impl_attrs
                    + trait_def_spec(no_mock(attr.opts), c, TraitIndirection::DynamicImpl, ModeV::Generic(g), impl_attrs, async_attr, vis, it@, tg2,
                        static_supertraits_toks(gen_span), Seq::empty(), fns.map_values(|f: TraitFnV| dynamic_impl_fn(f, c.entrait@, gen_span)), InputModeV::RawTrait),
            )),
            _ => Err(crate::attr_parse::err_at(gen_span, missing_delegate_message())),
        },
    }
}

fn no_mock_opts(opts: &Opts) -> (r: Opts)
    ensures
        r == no_mock(*opts),
{
    Opts {
        default_span: opts.default_span,
        no_deps: opts.no_deps,
        debug: opts.debug,
        async_strategy: opts.async_strategy,
        export: opts.export,
        mock_api: None,
        unimock: None,
        mockall: None,
        future_send: opts.future_send,
    }
}

fn delegation_trait(delegation: &Ident, impl_trait: &Ident, span: Span) -> (r: Vec<Tok>)
    ensures
        tv(r@) == delegation_trait_toks(delegation@, impl_trait@, span),
{
    let mut r: Vec<Tok> = Vec::new();
    push_ident(&mut r, "pub", span);
    push_ident(&mut r, "trait", span);
    push_tok(&mut r, ident_of(&delegation.name, delegation.span));
    push_punct(&mut r, '<', span);
    push_ident(&mut r, "T", span);
    push_punct(&mut r, '>', span);
    push_open(&mut r, Delimiter::Brace, span);
    push_ident(&mut r, "type", span);
    push_ident(&mut r, "Target", span);
    push_punct(&mut r, ':', span);
    push_tok(&mut r, ident_of(&impl_trait.name, impl_trait.span));
    push_punct(&mut r, '<', span);
    push_ident(&mut r, "T", span);
    push_punct(&mut r, '>', span);
    push_punct(&mut r, ';', span);
    push_close(&mut r, Delimiter::Brace, span);
    proof {
        reveal_strlit("pub");
        reveal_strlit("trait");
        reveal_strlit("T");
        reveal_strlit("type");
        reveal_strlit("Target");
    }
    assert(tv(r@) =~= delegation_trait_toks(delegation@, impl_trait@, span));
    r
}

fn gen_impl_delegation_trait_defs(
    out_trait: &OutTrait,
    trait_dependency_mode: &TraitDependencyMode,
    generic_idents: &GenericIdents,
    impl_sub_attributes: &Vec<SubAttribute>,
    attr: &EntraitTraitAttr,
    gen_span: Span,
) -> (r: Result<Option<Vec<Tok>>, MacroError>)
    requires
        mode_view(*trait_dependency_mode) == ModeV::Generic(generic_view(*generic_idents)),
        generic_idents.crate_idents == attr.crate_idents,
    ensures
        match spec_delegation_defs(*attr, fns_view(out_trait.fns@), out_trait.generics@, generic_view(*generic_idents), tv(out_trait.vis.tokens@),
            crate::trait_codegen::trait_level_subs(impl_sub_attributes@), crate::sub_attributes::has_async_trait(impl_sub_attributes@), gen_span) {
            Ok(None) => r matches Ok(None),
            Ok(Some(t)) => r matches Ok(Some(x)) && tv(x@) == t,
            Err(e) => r matches Err(x) && x@ == e,
        },
{
    let impl_trait_ident = match &attr.impl_trait {
        Some(ImplTrait(_, ident)) => ident,
        None => return Ok(None),
    };
    let entrait = &generic_idents.crate_idents.entrait;
    let no_mock = no_mock_opts(&attr.opts);
    let generics = generics_with_entrait_t(&out_trait.generics, gen_span);
    let supertraits = static_supertraits(gen_span);
    let raw_attrs: Vec<Tok> = Vec::new();
    let raw = FnInputMode::RawTrait(&raw_attrs);
    let no_assoc: Vec<Tok> = Vec::new();
    assert(tv(no_assoc@) =~= Seq::<TokV>::empty());
    let mut out: Vec<Tok> = Vec::new();
    let ghost impl_attrs = crate::trait_codegen::trait_level_subs(impl_sub_attributes@);
    match &attr.delegation_kind {
        Some(SpanOpt(Delegate::ByTrait(delegation_ident), _)) => {
            let fns = static_impl_fns(&out_trait.fns, entrait, gen_span);
            let codegen = TraitCodegen {
                crate_idents: &attr.crate_idents,
                opts: &no_mock,
                trait_indirection: TraitIndirection::StaticImpl,
                trait_dependency_mode,
                sub_attributes: impl_sub_attributes,
            };
            let trait_def = match codegen.gen_trait_def(&out_trait.vis, impl_trait_ident, &generics, &supertraits, &no_assoc, &fns, &raw) {
                Ok(t) => t,
                Err(e) => return Err(e),
            };
            crate::trait_codegen::push_trait_level_subs_pub(&mut out, impl_sub_attributes);
            let ghost a = tv(out@);
            extend(&mut out, &trait_def);
            let d = delegation_trait(delegation_ident, impl_trait_ident, gen_span);
            extend(&mut out, &d);
            assert(tv(out@) =~= (a + tv(trait_def@)) + tv(d@));
            Ok(Some(out))
        },
        Some(SpanOpt(Delegate::ByRef(_), _)) => {
            let fns = dynamic_impl_fns(&out_trait.fns, entrait, gen_span);
            let codegen = TraitCodegen {
                crate_idents: &attr.crate_idents,
                opts: &no_mock,
                trait_indirection: TraitIndirection::DynamicImpl,
                trait_dependency_mode,
                sub_attributes: impl_sub_attributes,
            };
            let trait_def = match codegen.gen_trait_def(&out_trait.vis, impl_trait_ident, &generics, &supertraits, &no_assoc, &fns, &raw) {
                Ok(t) => t,
                Err(e) => return Err(e),
            };
            crate::trait_codegen::push_trait_level_subs_pub(&mut out, impl_sub_attributes);
            extend(&mut out, &trait_def);
            Ok(Some(out))
        },
        _ => Err(MacroError::new(gen_span, "Missing delegate_by")),
    }
}

pub open spec fn args_list(f: TraitFnV, span: Span) -> Seq<TokV> {
    join(ident_args(f.sig.inputs), comma(span))
}

pub open spec fn plus_word(name: Seq<char>, span: Span) -> Seq<TokV> {
    seq![punct_v('+', Spacing::Alone, span), ident_v(name, span)]
}

pub open spec fn plus_static(span: Span) -> Seq<TokV> {
    seq![punct_v('+', Spacing::Alone, span), lifetime_v("static"@, span)]
}

/// `::core::convert::AsRef` or `::core::borrow::Borrow`.
pub open spec fn core_trait_path(core: IdentV, rd: RefDelegate, span: Span) -> Seq<TokV> {
    path_sep_v(span) + seq![ident_v(core.name, core.span)] + path_sep_v(span)
        + seq![ident_v(if rd == RefDelegate::AsRef { "convert"@ } else { "borrow"@ }, span)] + path_sep_v(span)
        + seq![ident_v(if rd == RefDelegate::AsRef { "AsRef"@ } else { "Borrow"@ }, span)]
}

/// `<EntraitT::Target as ImplTrait<EntraitT>>::f(self, args)`
pub open spec fn call_by_trait(f: TraitFnV, g: GenericV, it: IdentV, span: Span) -> Seq<TokV> {
    let t = ident_v(g.impl_t.name, g.impl_t.span);
    seq![punct_v('<', Spacing::Alone, span), t] + path_sep_v(span)
        + seq![ident_v("Target"@, span), ident_v("as"@, span), ident_v(it.name, it.span), punct_v('<', Spacing::Alone, span), t,
            punct_v('>', Spacing::Alone, span), punct_v('>', Spacing::Alone, span)]
        + path_sep_v(span)
        + seq![ident_v(f.sig.ident, f.sig.span), open_v(Delimiter::Parenthesis, span), ident_v("self"@, span), punct_v(',', Spacing::Alone, span)]
        + args_list(f, span) + seq![close_v(Delimiter::Parenthesis, span)]
}

/// `<EntraitT as ::core::convert::AsRef<dyn ImplTrait<EntraitT> + Sync>>::as_ref(&*self).f(self, args)`
pub open spec fn call_by_ref(f: TraitFnV, g: GenericV, it: IdentV, rd: RefDelegate, core: IdentV, contains_async: bool, span: Span) -> Seq<TokV> {
    let t = ident_v(g.impl_t.name, g.impl_t.span);
    seq![punct_v('<', Spacing::Alone, span), t, ident_v("as"@, span)] + core_trait_path(core, rd, span)
        + seq![punct_v('<', Spacing::Alone, span), ident_v("dyn"@, span), ident_v(it.name, it.span), punct_v('<', Spacing::Alone, span), t, punct_v('>', Spacing::Alone, span)]
        + (if contains_async { plus_word("Sync"@, span) } else { Seq::empty() })
        + seq![punct_v('>', Spacing::Alone, span), punct_v('>', Spacing::Alone, span)] + path_sep_v(span)
        + seq![ident_v(if rd == RefDelegate::AsRef { "as_ref"@ } else { "borrow"@ }, span), open_v(Delimiter::Parenthesis, span),
            punct_v('&', Spacing::Alone, span), punct_v('*', Spacing::Alone, span), ident_v("self"@, span), close_v(Delimiter::Parenthesis, span),
            punct_v('.', Spacing::Alone, span), ident_v(f.sig.ident, f.sig.span), open_v(Delimiter::Parenthesis, span), ident_v("self"@, span),
            punct_v(',', Spacing::Alone, span)]
        + args_list(f, span) + seq![close_v(Delimiter::Parenthesis, span)]
}

/// `self.as_ref().as_ref().f(args)` or `self.as_ref().borrow().f(args)`
pub open spec fn call_ref_self(f: TraitFnV, rd: RefDelegate, span: Span) -> Seq<TokV> {
    let dot = punct_v('.', Spacing::Alone, span);
    let op = open_v(Delimiter::Parenthesis, span);
    let cp = close_v(Delimiter::Parenthesis, span);
    seq![ident_v("self"@, span), dot, ident_v("as_ref"@, span), op, cp, dot, ident_v(if rd == RefDelegate::AsRef { "as_ref"@ } else { "borrow"@ }, span), op, cp, dot, ident_v(f.sig.ident, f.sig.span), op]
        + args_list(f, span) + seq![cp]
}

/// `self.as_ref().f(args)`
pub open spec fn call_plain(f: TraitFnV, span: Span) -> Seq<TokV> {
    let dot = punct_v('.', Spacing::Alone, span);
    let op = open_v(Delimiter::Parenthesis, span);
    let cp = close_v(Delimiter::Parenthesis, span);
    seq![ident_v("self"@, span), dot, ident_v("as_ref"@, span), op, cp, dot, ident_v(f.sig.ident, f.sig.span), op] + args_list(f, span) + seq![cp]
}

/// The call in a delegating method: through the delegation trait's target, through the
/// `dyn` implementation trait the type refers to, or on `self.as_ref()`.
pub open spec fn delegation_call(f: TraitFnV, g: GenericV, impl_trait: Option<IdentV>, dk: Option<DelegateV>, core: IdentV, contains_async: bool, span: Span) -> Seq<TokV> {
    match (impl_trait, dk) {
        (Some(it), Some(DelegateV::ByTrait(_))) => call_by_trait(f, g, it, span),
        (Some(it), Some(DelegateV::ByRef(rd))) => call_by_ref(f, g, it, rd, core, contains_async, span),
        (None, Some(DelegateV::ByRef(rd))) => call_ref_self(f, rd, span),
        _ => call_plain(f, span),
    }
}

/// A delegating method: the method's signature, and a body that makes the call.
pub open spec fn delegating_method_toks(f: TraitFnV, call: Seq<TokV>, span: Span) -> Seq<TokV> {
    f.attrs + sig_toks(f.sig) + seq![open_v(Delimiter::Brace, span)] + call
        + (if f.originally_async { dot_await(span) } else { Seq::empty() }) + seq![close_v(Delimiter::Brace, span)]
}

pub open spec fn dk_view(dk: Option<SpanOpt<Delegate>>) -> Option<DelegateV> {
    match dk {
        Some(o) => Some(o.0@),
        None => None,
    }
}

pub open spec fn impl_trait_ident(it: Option<ImplTrait>) -> Option<IdentV> {
    match it {
        Some(ImplTrait(_, i)) => Some(i@),
        None => None,
    }
}

pub open spec fn methods_toks(fns: Seq<TraitFnV>, g: GenericV, attr: EntraitTraitAttr, contains_async: bool, span: Span) -> Seq<TokV>
    decreases fns.len(),
{
    if fns.len() == 0 {
        Seq::empty()
    } else {
        methods_toks(fns.drop_last(), g, attr, contains_async, span)
            + delegating_method_toks(fns.last(),
                delegation_call(fns.last(), g, impl_trait_ident(attr.impl_trait), dk_view(attr.delegation_kind), attr.crate_idents.core@, contains_async, span),
                span)
    }
}

fn push_word(out: &mut Vec<Tok>, w: &str, span: Span)
    ensures
        tv(final(out)@) == tv(old(out)@) + seq![ident_v(w@, span)],
{
    let ghost base = tv(out@);
    push_ident(out, w, span);
    assert(tv(out@) =~= base + seq![ident_v(w@, span)]);
}

fn push_core_trait_path(out: &mut Vec<Tok>, core: &Ident, rd: RefDelegate, span: Span)
    ensures
        tv(final(out)@) == tv(old(out)@) + core_trait_path(core@, rd, span),
{
    let ghost base = tv(out@);
    push_path_sep(out, span);
    push_tok(out, ident_of(&core.name, core.span));
    push_path_sep(out, span);
    match rd {
        RefDelegate::AsRef => push_ident(out, "convert", span),
        RefDelegate::Borrow => push_ident(out, "borrow", span),
    }
    push_path_sep(out, span);
    match rd {
        RefDelegate::AsRef => push_ident(out, "AsRef", span),
        RefDelegate::Borrow => push_ident(out, "Borrow", span),
    }
    proof {
        reveal_strlit("convert");
        reveal_strlit("borrow");
        reveal_strlit("AsRef");
        reveal_strlit("Borrow");
    }
    assert(tv(out@) =~= base + core_trait_path(core@, rd, span));
}

fn args_tokens(trait_fn: &TraitFn, span: Span) -> (r: Vec<Tok>)
    ensures
        tv(r@) == args_list(trait_fn@, span),
{
    let args = ident_arg_items(&trait_fn.sig().inputs);
    let mut r: Vec<Tok> = Vec::new();
    push_joined(&mut r, &args, punct_vec(',', span));
    assert(tv(r@) =~= args_list(trait_fn@, span));
    r
}

fn gen_call_by_trait(trait_fn: &TraitFn, impl_t: &Ident, it: &Ident, span: Span) -> (r: Vec<Tok>)
    ensures
        forall|g: GenericV| g.impl_t == impl_t@ ==> tv(r@) == #[trigger] call_by_trait(trait_fn@, g, it@, span),
{
    let sig = trait_fn.sig();
    let arg_toks = args_tokens(trait_fn, span);
    proof {
        reveal_strlit("self");
        reveal_strlit("Target");
        reveal_strlit("as");
    }
    let mut r: Vec<Tok> = Vec::new();
    push_punct(&mut r, '<', span);
    push_tok(&mut r, ident_of(&impl_t.name, impl_t.span));
    push_path_sep(&mut r, span);
    push_ident(&mut r, "Target", span);
    push_ident(&mut r, "as", span);
    push_tok(&mut r, ident_of(&it.name, it.span));
    push_punct(&mut r, '<', span);
    push_tok(&mut r, ident_of(&impl_t.name, impl_t.span));
    push_punct(&mut r, '>', span);
    push_punct(&mut r, '>', span);
    push_path_sep(&mut r, span);
    push_tok(&mut r, ident_of(&sig.ident, sig.span));
    push_open(&mut r, Delimiter::Parenthesis, span);
    push_ident(&mut r, "self", span);
    push_punct(&mut r, ',', span);
    let ghost a = tv(r@);
    extend(&mut r, &arg_toks);
    push_close(&mut r, Delimiter::Parenthesis, span);
    assert forall|g: GenericV| g.impl_t == impl_t@ implies tv(r@) == #[trigger] call_by_trait(trait_fn@, g, it@, span) by {
        assert(tv(r@) =~= call_by_trait(trait_fn@, g, it@, span));
    }
    r
}

#[verifier::rlimit(40)]
fn gen_call_by_ref(trait_fn: &TraitFn, impl_t: &Ident, it: &Ident, rd: RefDelegate, core: &Ident, contains_async: bool, span: Span) -> (r: Vec<Tok>)
    ensures
        forall|g: GenericV| g.impl_t == impl_t@ ==> tv(r@) == #[trigger] call_by_ref(trait_fn@, g, it@, rd, core@, contains_async, span),
{
    let sig = trait_fn.sig();
    let arg_toks = args_tokens(trait_fn, span);
    proof {
        reveal_strlit("self");
        reveal_strlit("as_ref");
        reveal_strlit("borrow");
        reveal_strlit("as");
        reveal_strlit("dyn");
        reveal_strlit("Sync");
    }
    let mut r: Vec<Tok> = Vec::new();
    push_punct(&mut r, '<', span);
    push_tok(&mut r, ident_of(&impl_t.name, impl_t.span));
    push_ident(&mut r, "as", span);
    let ghost p0 = tv(r@);
    push_core_trait_path(&mut r, core, rd, span);
    let ghost p1 = tv(r@);
    let mut mid: Vec<Tok> = Vec::new();
    push_punct(&mut mid, '<', span);
    push_ident(&mut mid, "dyn", span);
    push_tok(&mut mid, ident_of(&it.name, it.span));
    push_punct(&mut mid, '<', span);
    push_tok(&mut mid, ident_of(&impl_t.name, impl_t.span));
    push_punct(&mut mid, '>', span);
    if contains_async {
        push_punct(&mut mid, '+', span);
        push_ident(&mut mid, "Sync", span);
    }
    push_punct(&mut mid, '>', span);
    push_punct(&mut mid, '>', span);
    push_path_sep(&mut mid, span);
    let ghost m0 = tv(mid@);
    let mut tail: Vec<Tok> = Vec::new();
    match rd {
        RefDelegate::AsRef => push_ident(&mut tail, "as_ref", span),
        RefDelegate::Borrow => push_ident(&mut tail, "borrow", span),
    }
    push_open(&mut tail, Delimiter::Parenthesis, span);
    push_punct(&mut tail, '&', span);
    push_punct(&mut tail, '*', span);
    push_ident(&mut tail, "self", span);
    push_close(&mut tail, Delimiter::Parenthesis, span);
    push_punct(&mut tail, '.', span);
    push_tok(&mut tail, ident_of(&sig.ident, sig.span));
    push_open(&mut tail, Delimiter::Parenthesis, span);
    push_ident(&mut tail, "self", span);
    push_punct(&mut tail, ',', span);
    extend(&mut tail, &arg_toks);
    push_close(&mut tail, Delimiter::Parenthesis, span);
    let ghost t0 = tv(tail@);
    extend(&mut r, &mid);
    extend(&mut r, &tail);
    assert forall|g: GenericV| g.impl_t == impl_t@ implies tv(r@) == #[trigger] call_by_ref(trait_fn@, g, it@, rd, core@, contains_async, span) by {
        let t = ident_v(g.impl_t.name, g.impl_t.span);
        assert(p0 =~= seq![punct_v('<', Spacing::Alone, span), t, ident_v("as"@, span)]);
        assert(m0 =~= seq![punct_v('<', Spacing::Alone, span), ident_v("dyn"@, span), ident_v(it@.name, it@.span), punct_v('<', Spacing::Alone, span), t, punct_v('>', Spacing::Alone, span)]
            + (if contains_async { plus_word("Sync"@, span) } else { Seq::empty() })
            + seq![punct_v('>', Spacing::Alone, span), punct_v('>', Spacing::Alone, span)] + path_sep_v(span));
        assert(tv(r@) =~= call_by_ref(trait_fn@, g, it@, rd, core@, contains_async, span));
    }
    r
}

fn gen_call_ref_self(trait_fn: &TraitFn, rd: RefDelegate, span: Span) -> (r: Vec<Tok>)
    ensures
        tv(r@) == call_ref_self(trait_fn@, rd, span),
{
    let sig = trait_fn.sig();
    let arg_toks = args_tokens(trait_fn, span);
    proof {
        reveal_strlit("self");
        reveal_strlit("as_ref");
        reveal_strlit("borrow");
    }
    let mut r: Vec<Tok> = Vec::new();
    push_ident(&mut r, "self", span);
    push_punct(&mut r, '.', span);
    push_ident(&mut r, "as_ref", span);
    push_open(&mut r, Delimiter::Parenthesis, span);
    push_close(&mut r, Delimiter::Parenthesis, span);
    push_punct(&mut r, '.', span);
    match rd {
        RefDelegate::AsRef => push_ident(&mut r, "as_ref", span),
        RefDelegate::Borrow => push_ident(&mut r, "borrow", span),
    }
    push_open(&mut r, Delimiter::Parenthesis, span);
    push_close(&mut r, Delimiter::Parenthesis, span);
    push_punct(&mut r, '.', span);
    push_tok(&mut r, ident_of(&sig.ident, sig.span));
    push_open(&mut r, Delimiter::Parenthesis, span);
    extend(&mut r, &arg_toks);
    push_close(&mut r, Delimiter::Parenthesis, span);
    assert(tv(r@) =~= call_ref_self(trait_fn@, rd, span));
    r
}

fn gen_call_plain(trait_fn: &TraitFn, span: Span) -> (r: Vec<Tok>)
    ensures
        tv(r@) == call_plain(trait_fn@, span),
{
    let sig = trait_fn.sig();
    let arg_toks = args_tokens(trait_fn, span);
    proof {
        reveal_strlit("self");
        reveal_strlit("as_ref");
    }
    let mut r: Vec<Tok> = Vec::new();
    push_ident(&mut r, "self", span);
    push_punct(&mut r, '.', span);
    push_ident(&mut r, "as_ref", span);
    push_open(&mut r, Delimiter::Parenthesis, span);
    push_close(&mut r, Delimiter::Parenthesis, span);
    push_punct(&mut r, '.', span);
    push_tok(&mut r, ident_of(&sig.ident, sig.span));
    push_open(&mut r, Delimiter::Parenthesis, span);
    extend(&mut r, &arg_toks);
    push_close(&mut r, Delimiter::Parenthesis, span);
    assert(tv(r@) =~= call_plain(trait_fn@, span));
    r
}

/// The call of a delegating method.
fn gen_delegation_call(trait_fn: &TraitFn, generic_idents: &GenericIdents, attr: &EntraitTraitAttr, contains_async: bool, span: Span) -> (r: Vec<Tok>)
    ensures
        tv(r@) == delegation_call(trait_fn@, generic_view(*generic_idents), impl_trait_ident(attr.impl_trait), dk_view(attr.delegation_kind), attr.crate_idents.core@, contains_async, span),
{
    let ghost g = generic_view(*generic_idents);
    match (&attr.impl_trait, &attr.delegation_kind) {
        (Some(ImplTrait(_, it)), Some(SpanOpt(Delegate::ByTrait(_), _))) => {
            let r = gen_call_by_trait(trait_fn, &generic_idents.impl_t, it, span);
            assert(tv(r@) == call_by_trait(trait_fn@, g, it@, span));
            r
        },
        (Some(ImplTrait(_, it)), Some(SpanOpt(Delegate::ByRef(rd), _))) => {
            let r = gen_call_by_ref(trait_fn, &generic_idents.impl_t, it, *rd, &attr.crate_idents.core, contains_async, span);
            assert(tv(r@) == call_by_ref(trait_fn@, g, it@, *rd, attr.crate_idents.core@, contains_async, span));
            r
        },
        (None, Some(SpanOpt(Delegate::ByRef(rd), _))) => gen_call_ref_self(trait_fn, *rd, span),
        _ => gen_call_plain(trait_fn, span),
    }
}

/// Writes a delegating method.
fn gen_delegation_method(out: &mut Vec<Tok>, trait_fn: &TraitFn, generic_idents: &GenericIdents, attr: &EntraitTraitAttr, contains_async: bool, span: Span)
    ensures
        tv(final(out)@) == tv(old(out)@) + delegating_method_toks(trait_fn@,
            delegation_call(trait_fn@, generic_view(*generic_idents), impl_trait_ident(attr.impl_trait), dk_view(attr.delegation_kind), attr.crate_idents.core@, contains_async, span),
            span),
{
    let call = gen_delegation_call(trait_fn, generic_idents, attr, contains_async, span);
    let mut m: Vec<Tok> = Vec::new();
    extend(&mut m, &trait_fn.attrs);
    push_sig(&mut m, trait_fn.sig());
    push_open(&mut m, Delimiter::Brace, span);
    extend(&mut m, &call);
    let dot_await = trait_fn.opt_dot_await(span);
    extend(&mut m, &dot_await);
    push_close(&mut m, Delimiter::Brace, span);
    assert(tv(m@) =~= delegating_method_toks(trait_fn@, tv(call@), span));
    extend(out, &m);
}

/// The trait with its generic arguments: `Trait<A, B>`.
pub open spec fn trait_with_args(ident: IdentV, tg: TraitGenericsV, gen_span: Span) -> Seq<TokV> {
    seq![ident_v(ident.name, ident.span)] + arguments_toks(tg.params, false, gen_span)
}

/// The bounds on `EntraitT` in the implementation for `Impl<EntraitT>`: what it delegates
/// through, `Sync`, and `'static` where futures or the delegation need it.
pub open spec fn impl_t_bounds_spec(
    g: GenericV,
    impl_trait: Option<IdentV>,
    dk: Option<DelegateV>,
    core: IdentV,
    contains_async: bool,
    trait_ident: IdentV,
    tg: TraitGenericsV,
    span: Span,
    gen_span: Span,
) -> Seq<TokV> {
    let t = ident_v(g.impl_t.name, g.impl_t.span);
    let send_sync = if contains_async { plus_word("Send"@, span) + plus_word("Sync"@, span) } else { Seq::empty() };
    seq![t, punct_v(':', Spacing::Alone, span)] + match (impl_trait, dk) {
        (Some(_), Some(DelegateV::ByTrait(d))) =>
            seq![ident_v(d.name, d.span), punct_v('<', Spacing::Alone, span), t, punct_v('>', Spacing::Alone, span)]
                + plus_word("Sync"@, span) + plus_static(span),
        (Some(it), Some(DelegateV::ByRef(rd))) =>
            core_trait_path(core, rd, span)
                + seq![punct_v('<', Spacing::Alone, span), ident_v("dyn"@, span), ident_v(it.name, it.span), punct_v('<', Spacing::Alone, span), t, punct_v('>', Spacing::Alone, span)]
                + (if contains_async { plus_word("Sync"@, span) } else { Seq::empty() })
                + seq![punct_v('>', Spacing::Alone, span)]
                + send_sync + plus_static(span),
        (None, Some(DelegateV::ByRef(rd))) =>
            core_trait_path(core, rd, span) + seq![punct_v('<', Spacing::Alone, span), ident_v("dyn"@, span)]
                + trait_with_args(trait_ident, tg, gen_span) + seq![punct_v('>', Spacing::Alone, span)]
                + send_sync + plus_static(span),
        _ => trait_with_args(trait_ident, tg, gen_span) + plus_word("Sync"@, span)
            + (if contains_async { plus_static(span) } else { Seq::empty() }),
    }
}

/// `where EntraitT: .., predicates of the trait`
pub open spec fn impl_where_spec(bounds: Seq<TokV>, tg: TraitGenericsV, span: Span) -> Seq<TokV> {
    seq![ident_v("where"@, span)] + join(seq![bounds] + pred_items(tg.preds), seq![punct_v(',', Spacing::Alone, span)])
}

fn push_plus_word(out: &mut Vec<Tok>, w: &str, span: Span)
    ensures
        tv(final(out)@) == tv(old(out)@) + plus_word(w@, span),
{
    let ghost base = tv(out@);
    push_punct(out, '+', span);
    push_ident(out, w, span);
    assert(tv(out@) =~= base + plus_word(w@, span));
}

fn push_plus_static(out: &mut Vec<Tok>, span: Span)
    ensures
        tv(final(out)@) == tv(old(out)@) + plus_static(span),
{
    let ghost base = tv(out@);
    push_punct(out, '+', span);
    push_tok(out, lifetime(&owned("static"), span));
    proof { reveal_strlit("static"); }
    assert(tv(out@) =~= base + plus_static(span));
}

fn push_trait_with_args(out: &mut Vec<Tok>, ident: &Ident, tg: &TraitGenerics, gen_span: Span)
    ensures
        tv(final(out)@) == tv(old(out)@) + trait_with_args(ident@, tg@, gen_span),
{
    let ghost base = tv(out@);
    push_tok(out, ident_of(&ident.name, ident.span));
    tg.arguments(out, &ImplIndirection::Direct, gen_span);
    assert(tv(out@) =~= base + trait_with_args(ident@, tg@, gen_span));
}

#[verifier::rlimit(40)]
fn push_impl_t_bounds(
    out: &mut Vec<Tok>,
    generic_idents: &GenericIdents,
    attr: &EntraitTraitAttr,
    contains_async: bool,
    trait_ident: &Ident,
    tg: &TraitGenerics,
    span: Span,
    gen_span: Span,
)
    ensures
        tv(final(out)@) == tv(old(out)@) + impl_t_bounds_spec(generic_view(*generic_idents), impl_trait_ident(attr.impl_trait),
            dk_view(attr.delegation_kind), attr.crate_idents.core@, contains_async, trait_ident@, tg@, span, gen_span),
{
    let ghost base = tv(out@);
    let impl_t = &generic_idents.impl_t;
    let core = &attr.crate_idents.core;
    proof {
        reveal_strlit("dyn");
        reveal_strlit("Send");
        reveal_strlit("Sync");
    }
    let mut b: Vec<Tok> = Vec::new();
    match (&attr.impl_trait, &attr.delegation_kind) {
        (Some(_), Some(SpanOpt(Delegate::ByTrait(d), _))) => {
            push_tok(&mut b, ident_of(&d.name, d.span));
            push_punct(&mut b, '<', span);
            push_tok(&mut b, ident_of(&impl_t.name, impl_t.span));
            push_punct(&mut b, '>', span);
            push_plus_word(&mut b, "Sync", span);
            push_plus_static(&mut b, span);
        },
        (Some(ImplTrait(_, it)), Some(SpanOpt(Delegate::ByRef(rd), _))) => {
            push_core_trait_path(&mut b, core, *rd, span);
            push_punct(&mut b, '<', span);
            push_ident(&mut b, "dyn", span);
            push_tok(&mut b, ident_of(&it.name, it.span));
            push_punct(&mut b, '<', span);
            push_tok(&mut b, ident_of(&impl_t.name, impl_t.span));
            push_punct(&mut b, '>', span);
            if contains_async {
                push_plus_word(&mut b, "Sync", span);
            }
            push_punct(&mut b, '>', span);
            if contains_async {
                push_plus_word(&mut b, "Send", span);
                push_plus_word(&mut b, "Sync", span);
            }
            push_plus_static(&mut b, span);
        },
        (None, Some(SpanOpt(Delegate::ByRef(rd), _))) => {
            push_core_trait_path(&mut b, core, *rd, span);
            push_punct(&mut b, '<', span);
            push_ident(&mut b, "dyn", span);
            push_trait_with_args(&mut b, trait_ident, tg, gen_span);
            push_punct(&mut b, '>', span);
            if contains_async {
                push_plus_word(&mut b, "Send", span);
                push_plus_word(&mut b, "Sync", span);
            }
            push_plus_static(&mut b, span);
        },
        _ => {
            push_trait_with_args(&mut b, trait_ident, tg, gen_span);
            push_plus_word(&mut b, "Sync", span);
            if contains_async {
                push_plus_static(&mut b, span);
            }
        },
    }
    let ghost bv = tv(b@);
    let ghost g = generic_view(*generic_idents);
    let ghost t = ident_v(g.impl_t.name, g.impl_t.span);
    let ghost whole = impl_t_bounds_spec(g, impl_trait_ident(attr.impl_trait), dk_view(attr.delegation_kind), core@, contains_async, trait_ident@, tg@, span, gen_span);
    assert(whole == seq![t, punct_v(':', Spacing::Alone, span)] + bv);
    push_tok(out, ident_of(&impl_t.name, impl_t.span));
    push_punct(out, ':', span);
    extend(out, &b);
    assert(tv(out@) =~= base + whole);
}

pub open spec fn custom_delegate_message() -> Seq<char> {
    "Cannot use a custom delegating trait without a custom trait to delegate to. Use either `#[entrait(TraitImpl, delegate_by = DelegateTrait)]` or `#[entrait(delegate_by = ref)]`"@
}

/// `impl<EntraitT: Sync, ..> Trait<..> for ::entrait::Impl<EntraitT>`
pub open spec fn impl_head_toks(ident: IdentV, tg: TraitGenericsV, g: GenericV, gen_span: Span) -> Seq<TokV> {
    seq![ident_v("impl"@, gen_span)]
        + params_gen_toks(tg.params, Some(g.impl_t), false, false, gen_span)
        + seq![ident_v(ident.name, ident.span)]
        + arguments_toks(tg.params, false, gen_span)
        + seq![ident_v("for"@, gen_span)]
        + impl_path_g(g, ident.span)
}

/// `{ delegating methods }`
pub open spec fn impl_body_toks(fns: Seq<TraitFnV>, g: GenericV, attr: EntraitTraitAttr, gen_span: Span) -> Seq<TokV> {
    seq![open_v(Delimiter::Brace, gen_span)]
        + methods_toks(fns, g, attr, crate::generics::any_async(fns), gen_span)
        + seq![close_v(Delimiter::Brace, gen_span)]
}

/// The implementation of the trait for `Impl<EntraitT>`.
pub open spec fn trait_impl_spec(attr: EntraitTraitAttr, item: InputTrait, fns: Seq<TraitFnV>, g: GenericV, tg: TraitGenericsV, gen_span: Span) -> Seq<TokV> {
    let ts = item.ident.span;
    let contains_async = crate::generics::any_async(fns);
    crate::sub_attributes::impl_level_attrs(item.attrs@)
        + impl_head_toks(item.ident@, tg, g, gen_span)
        + impl_where_spec(impl_t_bounds_spec(g, impl_trait_ident(attr.impl_trait), dk_view(attr.delegation_kind), attr.crate_idents.core@, contains_async, item.ident@, tg, ts, gen_span), tg, ts)
        + impl_body_toks(fns, g, attr, gen_span)
}

/// What `entrait` makes of a trait: the trait, the implementation traits if asked for, and
/// the implementation for `Impl<EntraitT>` that delegates.
pub open spec fn spec_trait_output(attr: EntraitTraitAttr, item: InputTrait, gen_span: Span) -> Result<Seq<TokV>, ErrV> {
    if attr.impl_trait is None && attr.delegation_kind matches Some(SpanOpt(Delegate::ByTrait(_), _)) {
        Err(crate::attr_parse::err_at(attr.delegation_kind->Some_0.1, custom_delegate_message()))
    } else {
        match spec_trait_fns(item.items@) {
            Err(e) => Err(e),
            Ok(fns) => {
                let ts = item.ident.span;
                let g = generic_at(attr.crate_idents, ts);
                let tg = TraitGenericsV { params: params_view(item.generics.params@), preds: where_of(item.generics) };
                let attrs = item.attrs@;
                match spec_delegation_defs(attr, fns, tg, g, tv(item.vis.tokens@), crate::sub_attributes::impl_level_attrs(attrs), crate::sub_attributes::attrs_async(attrs), gen_span) {
                    Err(e) => Err(e),
                    Ok(dd) => Ok(
                        trait_def_spec(attr.opts, attr.crate_idents, TraitIndirection::Trait, ModeV::Generic(g), crate::sub_attributes::trait_level_attrs(attrs),
                            crate::sub_attributes::attrs_async(attrs), tv(item.vis.tokens@), item.ident@, tg, crate::trait_codegen::supertraits_toks(item.supertraits), spec_assoc_types(item.items@), fns, InputModeV::RawTrait)
                        + (match dd { Some(t) => t, None => Seq::empty() })
                        + trait_impl_spec(attr, item, fns, g, tg, gen_span)
                    ),
                }
            },
        }
    }
}

/// The delegating methods are written: the trait was read and its implementation traits made.
pub open spec fn methods_reached(attr: EntraitTraitAttr, item: InputTrait, gen_span: Span) -> bool {
    spec_trait_output(attr, item, gen_span) is Ok
}

/// Every typed parameter of every method has a plain identifier pattern.
pub open spec fn trait_items_plain(items: Seq<TraitItem>) -> bool {
    forall|i: int| 0 <= i < items.len() ==> (#[trigger] items[i] matches TraitItem::Fn { sig, .. } ==> crate::converter::typed_args_plain(sig@.inputs))
}

proof fn lemma_trait_fns_plain(items: Seq<TraitItem>)
    requires
        trait_items_plain(items),
    ensures
        spec_trait_fns(items) matches Ok(fns) ==> all_fns_plain(fns),
    decreases items.len(),
{
    if items.len() > 0 {
        let init = items.drop_last();
        assert forall|i: int| 0 <= i < init.len() implies (#[trigger] init[i] matches TraitItem::Fn { sig, .. } ==> crate::converter::typed_args_plain(sig@.inputs)) by {
            assert(init[i] == items[i]);
        }
        lemma_trait_fns_plain(init);
    }
}

fn write_methods(out: &mut Vec<Tok>, fns: &Vec<TraitFn>, generic_idents: &GenericIdents, attr: &EntraitTraitAttr, contains_async: bool, gen_span: Span)
    ensures
        tv(final(out)@) == tv(old(out)@) + methods_toks(fns_view(fns@), generic_view(*generic_idents), *attr, contains_async, gen_span),
{
    let ghost base = tv(out@);
    let ghost fv = fns_view(fns@);
    let ghost g = generic_view(*generic_idents);
    let mut i: usize = 0;
    assert(fv.take(0) =~= Seq::<TraitFnV>::empty());
    assert(tv(out@) =~= base + methods_toks(fv.take(0), g, *attr, contains_async, gen_span));
    while i < fns.len()
        invariant
            i <= fns@.len(),
            fv == fns_view(fns@),
            g == generic_view(*generic_idents),
            tv(out@) == base + methods_toks(fv.take(i as int), g, *attr, contains_async, gen_span),
        decreases fns@.len() - i,
    {
        let ghost t = fv.take(i + 1);
        assert(t.drop_last() =~= fv.take(i as int));
        assert(t.last() == fns@[i as int]@);
        let ghost before = methods_toks(fv.take(i as int), g, *attr, contains_async, gen_span);
        let ghost x = delegating_method_toks(fns@[i as int]@,
            delegation_call(fns@[i as int]@, g, impl_trait_ident(attr.impl_trait), dk_view(attr.delegation_kind), attr.crate_idents.core@, contains_async, gen_span),
            gen_span);
        gen_delegation_method(out, &fns[i], generic_idents, attr, contains_async, gen_span);
        proof {
            lemma_add_assoc(base, before, x);
        }
        i = i + 1;
    }
    assert(fv.take(fns@.len() as int) =~= fv);
}

#[verifier::rlimit(60)]
fn write_trait_impl(out: &mut Vec<Tok>, attr: &EntraitTraitAttr, item_attrs: &Vec<Vec<Tok>>, out_trait: &OutTrait, generic_idents: &GenericIdents, gen_span: Span)
    requires
        generic_idents.impl_t.span == out_trait.ident.span,
    ensures
        tv(final(out)@) == tv(old(out)@) + (crate::sub_attributes::impl_level_attrs(item_attrs@)
            + impl_head_toks(out_trait.ident@, out_trait.generics@, generic_view(*generic_idents), gen_span)
            + impl_where_spec(impl_t_bounds_spec(generic_view(*generic_idents), impl_trait_ident(attr.impl_trait), dk_view(attr.delegation_kind),
                attr.crate_idents.core@, crate::generics::any_async(fns_view(out_trait.fns@)), out_trait.ident@, out_trait.generics@, out_trait.ident.span, gen_span),
                out_trait.generics@, out_trait.ident.span)
            + impl_body_toks(fns_view(out_trait.fns@), generic_view(*generic_idents), *attr, gen_span)),
{
    let ts = out_trait.ident.span;
    let contains_async = crate::generics::has_any_async(&out_trait.fns);
    let subs = analyze_sub_attributes(item_attrs);
    let ghost b0 = tv(out@);
    push_impl_level_subs(out, &subs);
    let ghost p0 = crate::sub_attributes::impl_level_attrs(item_attrs@);
    proof { reveal_strlit("impl"); reveal_strlit("for"); reveal_strlit("where"); }
    let mut head: Vec<Tok> = Vec::new();
    push_ident(&mut head, "impl", gen_span);
    out_trait.generics.impl_params_from_idents(&mut head, generic_idents, TakesSelfByValue(false), gen_span);
    push_tok(&mut head, ident_of(&out_trait.ident.name, out_trait.ident.span));
    out_trait.generics.arguments(&mut head, &ImplIndirection::Direct, gen_span);
    push_ident(&mut head, "for", gen_span);
    generic_idents.impl_path(&mut head, ts);
    let ghost h = tv(head@);
    assert(h =~= impl_head_toks(out_trait.ident@, out_trait.generics@, generic_view(*generic_idents), gen_span));
    let mut bounds: Vec<Tok> = Vec::new();
    push_impl_t_bounds(&mut bounds, generic_idents, attr, contains_async, &out_trait.ident, &out_trait.generics, ts, gen_span);
    let ghost bs0 = tv(bounds@);
    let mut items: Vec<Vec<Tok>> = Vec::new();
    items.push(bounds);
    let mut k: usize = 0;
    let ghost preds = out_trait.generics@.preds;
    assert(pred_items(preds).take(0) =~= Seq::<Seq<TokV>>::empty());
    assert(items_view(items@) =~= seq![tv(items@[0]@)] + pred_items(preds).take(0));
    while k < out_trait.generics.where_predicates.len()
        invariant
            k <= out_trait.generics.where_predicates@.len(),
            preds == out_trait.generics@.preds,
            items@.len() == k + 1,
            tv(items@[0]@) == bs0,
            items_view(items@) == seq![tv(items@[0]@)] + pred_items(preds).take(k as int),
        decreases out_trait.generics.where_predicates@.len() - k,
    {
        let ghost before = items_view(items@);
        items.push(crate::model::dup_toks(&out_trait.generics.where_predicates[k].tokens));
        assert(items_view(items@) =~= before.push(pred_items(preds)[k as int]));
        assert(pred_items(preds).take(k + 1) =~= pred_items(preds).take(k as int).push(pred_items(preds)[k as int]));
        k = k + 1;
    }
    assert(pred_items(preds).take(preds.len() as int) =~= pred_items(preds));
    let mut wc: Vec<Tok> = Vec::new();
    push_ident(&mut wc, "where", ts);
    crate::tokens::push_joined(&mut wc, &items, punct_vec(',', ts));
    let mut body: Vec<Tok> = Vec::new();
    push_open(&mut body, Delimiter::Brace, gen_span);
    write_methods(&mut body, &out_trait.fns, generic_idents, attr, contains_async, gen_span);
    push_close(&mut body, Delimiter::Brace, gen_span);
    let ghost w = tv(wc@);
    let ghost bd = tv(body@);
    let ghost bs = impl_t_bounds_spec(generic_view(*generic_idents), impl_trait_ident(attr.impl_trait), dk_view(attr.delegation_kind),
                attr.crate_idents.core@, contains_async, out_trait.ident@, out_trait.generics@, ts, gen_span);
    assert(items_view(items@) =~= seq![bs] + pred_items(preds));
    assert(w =~= impl_where_spec(bs, out_trait.generics@, ts));
    extend(out, &head);
    extend(out, &wc);
    extend(out, &body);
    assert(bd =~= impl_body_toks(fns_view(out_trait.fns@), generic_view(*generic_idents), *attr, gen_span));
    assert(tv(out@) =~= b0 + (p0 + h + w + bd));
}

/// `entrait` on a trait.
pub fn output_tokens(attr: &EntraitTraitAttr, item_trait: InputTrait, gen_span: Span) -> (r: Result<Vec<Tok>, MacroError>)
    requires
        methods_reached(*attr, item_trait, gen_span) ==> trait_items_plain(item_trait.items@),
    ensures
        match spec_trait_output(*attr, item_trait, gen_span) {
            Ok(t) => r matches Ok(x) && tv(x@) == t,
            Err(e) => r matches Err(x) && x@ == e,
        },
{
    let ghost item_v = item_trait;
    match (&attr.impl_trait, &attr.delegation_kind) {
        (None, Some(SpanOpt(Delegate::ByTrait(_), span))) => {
            return Err(MacroError::new(
                *span,
                "Cannot use a custom delegating trait without a custom trait to delegate to. Use either `#[entrait(TraitImpl, delegate_by = DelegateTrait)]` or `#[entrait(delegate_by = ref)]`",
            ));
        },
        _ => {},
    }
    let out_trait = match analyze_trait(item_trait) {
        Ok(o) => o,
        Err(e) => return Err(e),
    };
    let ts = out_trait.ident.span;
    let sub_attributes = analyze_sub_attributes(&out_trait.attrs);
    let impl_sub_attributes = crate::sub_attributes::async_trait_subs(&sub_attributes);
    let generic_idents = GenericIdents::new(attr.crate_idents.duplicate(), ts);
    let trait_dependency_mode = TraitDependencyMode::Generic(GenericIdents::new(attr.crate_idents.duplicate(), ts));
    proof {
        reveal_strlit("Impl");
        reveal_strlit("EntraitT");
    }
    assert(mode_view(trait_dependency_mode) == ModeV::Generic(generic_view(generic_idents)));
    let delegation_trait_def = match gen_impl_delegation_trait_defs(&out_trait, &trait_dependency_mode, &generic_idents, &impl_sub_attributes, attr, gen_span) {
        Ok(d) => d,
        Err(e) => return Err(e),
    };
    let codegen = TraitCodegen {
        crate_idents: &attr.crate_idents,
        opts: &attr.opts,
        trait_indirection: TraitIndirection::Trait,
        trait_dependency_mode: &trait_dependency_mode,
        sub_attributes: &sub_attributes,
    };
    let raw_attrs: Vec<Tok> = Vec::new();
    let raw = FnInputMode::RawTrait(&raw_attrs);
    let trait_def = match codegen.gen_trait_def(&out_trait.vis, &out_trait.ident, &out_trait.generics, &out_trait.supertraits, &out_trait.assoc_types, &out_trait.fns, &raw) {
        Ok(t) => t,
        Err(e) => return Err(e),
    };
    let mut out: Vec<Tok> = Vec::new();
    extend(&mut out, &trait_def);
    match &delegation_trait_def {
        Some(d) => extend(&mut out, d),
        None => {},
    }
    let ghost a = tv(out@);
    write_trait_impl(&mut out, attr, &out_trait.attrs, &out_trait, &generic_idents, gen_span);
    Ok(out)
}
/// No item of the trait is other than a method or an associated type.
pub open spec fn no_other_items(items: Seq<TraitItem>) -> bool {
    forall|i: int| 0 <= i < items.len() ==> !(#[trigger] items[i] is Other)
}

/// The methods of a trait are read without error exactly when every item is a method or an
/// associated type.
pub proof fn lemma_trait_fns_ok(items: Seq<TraitItem>)
    ensures
        spec_trait_fns(items) is Ok <==> no_other_items(items),
    decreases items.len(),
{
    if items.len() > 0 {
        let init = items.drop_last();
        lemma_trait_fns_ok(init);
        if no_other_items(items) {
            assert forall|i: int| 0 <= i < init.len() implies !(#[trigger] init[i] is Other) by {
                assert(init[i] == items[i]);
            }
            assert(!(items[items.len() - 1] is Other));
        } else {
            let k = choose|i: int| 0 <= i < items.len() && #[trigger] items[i] is Other;
            if k < init.len() {
                assert(init[k] == items[k]);
            }
        }
        if no_other_items(init) && !(items.last() is Other) {
            assert forall|i: int| 0 <= i < items.len() implies !(#[trigger] items[i] is Other) by {
                if i < init.len() {
                    assert(init[i] == items[i]);
                }
            }
        }
    }
}

/// Whether every typed parameter of every method has a plain identifier pattern.
pub fn items_plain(items: &Vec<TraitItem>) -> (r: bool)
    ensures
        r == trait_items_plain(items@),
{
    let mut i: usize = 0;
    while i < items.len()
        invariant
            i <= items@.len(),
            forall|j: int| 0 <= j < i ==> (#[trigger] items@[j] matches TraitItem::Fn { sig, .. } ==> crate::converter::typed_args_plain(sig@.inputs)),
        decreases items@.len() - i,
    {
        match &items[i] {
            TraitItem::Fn { sig, .. } => {
                assert(items@[i as int] is Fn && items@[i as int]->Fn_sig == *sig);
                let mut k: usize = 0;
                while k < sig.inputs.len()
                    invariant
                        i < items@.len(),
                        items@[i as int] is Fn,
                        items@[i as int]->Fn_sig == *sig,
                        k <= sig.inputs@.len(),
                        forall|j: int| 0 <= j < k ==> (#[trigger] sig@.inputs[j] is Typed ==> sig@.inputs[j]->Typed_pat is Ident),
                    decreases sig.inputs@.len() - k,
                {
                    assert(sig@.inputs[k as int] == sig.inputs@[k as int]@);
                    match &sig.inputs[k] {
                        FnArg::Typed { pat: crate::model::PatModel::Other { .. }, .. } => {
                            assert(sig@.inputs[k as int] is Typed);
                            assert(!(sig@.inputs[k as int]->Typed_pat is Ident));
                            assert(!crate::converter::typed_args_plain(sig@.inputs));
                            assert(items@[i as int] is Fn);
                            assert(items@[i as int]->Fn_sig == *sig);
                            return false;
                        },
                        _ => {},
                    }
                    assert(sig@.inputs[k as int] is Typed ==> sig@.inputs[k as int]->Typed_pat is Ident);
                    k = k + 1;
                }
                assert(crate::converter::typed_args_plain(sig@.inputs));
            },
            _ => {},
        }
        assert(items@[i as int] matches TraitItem::Fn { sig, .. } ==> crate::converter::typed_args_plain(sig@.inputs));
        i = i + 1;
    }
    true
}

/// The delegation options fit together: a custom delegation trait comes with an implementation
/// trait, and an implementation trait comes with a delegation.
pub open spec fn delegation_fits(attr: EntraitTraitAttr) -> bool {
    match attr.impl_trait {
        None => !(attr.delegation_kind matches Some(SpanOpt(Delegate::ByTrait(_), _))),
        Some(_) => attr.delegation_kind matches Some(SpanOpt(d, _)) && !(d is BySelf),
    }
}

/// `entrait` on a trait writes its delegating methods exactly when the delegation options fit
/// together and every item is a method or an associated type.
pub proof fn lemma_methods_reached(attr: EntraitTraitAttr, item: InputTrait, gen_span: Span)
    ensures
        methods_reached(attr, item, gen_span) <==> (delegation_fits(attr) && no_other_items(item.items@)),
{
    lemma_trait_fns_ok(item.items@);
}

/// Whether `entrait` on this trait gets as far as writing the delegating methods, that is,
/// reports no error: the delegation options fit together and every item is a method or an
/// associated type.
pub fn reaches_methods(attr: &EntraitTraitAttr, item: &InputTrait, gen_span: Span) -> (r: bool)
    ensures
        r == methods_reached(*attr, *item, gen_span),
{
    proof { lemma_methods_reached(*attr, *item, gen_span); }
    let fits = match &attr.impl_trait {
        None => match &attr.delegation_kind {
            Some(SpanOpt(Delegate::ByTrait(_), _)) => false,
            _ => true,
        },
        Some(_) => match &attr.delegation_kind {
            Some(SpanOpt(Delegate::ByTrait(_), _)) => true,
            Some(SpanOpt(Delegate::ByRef(_), _)) => true,
            _ => false,
        },
    };
    if !fits {
        assert(!delegation_fits(*attr));
        return false;
    }
    let mut i: usize = 0;
    while i < item.items.len()
        invariant
            i <= item.items@.len(),
            delegation_fits(*attr),
            methods_reached(*attr, *item, gen_span) <==> (delegation_fits(*attr) && no_other_items(item.items@)),
            forall|j: int| 0 <= j < i ==> !(#[trigger] item.items@[j] is Other),
        decreases item.items@.len() - i,
    {
        match &item.items[i] {
            TraitItem::Other { .. } => {
                assert(item.items@[i as int] is Other);
                return false;
            },
            _ => {},
        }
        i = i + 1;
    }
    true
}


/// Delegating through `AsRef` or `Borrow` to the type itself: every delegating method calls
/// `self.as_ref().<accessor>().<method>(..)`, where the accessor is the method of the very
/// core trait that the implementation bounds `EntraitT` by: `borrow` with
/// `EntraitT: ::core::borrow::Borrow<dyn Trait..>`, `as_ref` with
/// `EntraitT: ::core::convert::AsRef<dyn Trait..>`.
pub proof fn lemma_ref_delegation_accessor(
    attr: EntraitTraitAttr,
    f: TraitFnV,
    g: GenericV,
    rd: RefDelegate,
    contains_async: bool,
    trait_ident: IdentV,
    tg: TraitGenericsV,
    span: Span,
    gen_span: Span,
)
    requires
        attr.impl_trait is None,
        dk_view(attr.delegation_kind) == Some(DelegateV::ByRef(rd)),
    ensures
        ({
            let core = attr.crate_idents.core@;
            let m = methods_toks(seq![f], g, attr, contains_async, span);
            let k = (f.attrs.len() + sig_toks(f.sig).len() + 1) as int;
            let bounds = impl_t_bounds_spec(g, impl_trait_ident(attr.impl_trait), dk_view(attr.delegation_kind), core, contains_async, trait_ident, tg, span, gen_span);
            let dot = punct_v('.', Spacing::Alone, span);
            let op = open_v(Delimiter::Parenthesis, span);
            let cp = close_v(Delimiter::Parenthesis, span);
            let call = |accessor: Seq<char>| seq![ident_v("self"@, span), dot, ident_v("as_ref"@, span), op, cp, dot,
                ident_v(accessor, span), op, cp, dot, ident_v(f.sig.ident, f.sig.span), op];
            let bound = |module: Seq<char>, tr: Seq<char>| seq![ident_v(g.impl_t.name, g.impl_t.span), punct_v(':', Spacing::Alone, span),
                punct_v(':', Spacing::Joint, span), punct_v(':', Spacing::Alone, span), ident_v(core.name, core.span),
                punct_v(':', Spacing::Joint, span), punct_v(':', Spacing::Alone, span), ident_v(module, span),
                punct_v(':', Spacing::Joint, span), punct_v(':', Spacing::Alone, span), ident_v(tr, span),
                punct_v('<', Spacing::Alone, span), ident_v("dyn"@, span)];
            &&& k + 12 <= m.len()
            &&& 13 <= bounds.len()
            &&& (rd == RefDelegate::Borrow ==> m.subrange(k, k + 12) == call("borrow"@) && bounds.subrange(0, 13) == bound("borrow"@, "Borrow"@))
            &&& (rd == RefDelegate::AsRef ==> m.subrange(k, k + 12) == call("as_ref"@) && bounds.subrange(0, 13) == bound("convert"@, "AsRef"@))
        }),
{
    let core = attr.crate_idents.core@;
    let fs = seq![f];
    assert(fs.drop_last() =~= Seq::<TraitFnV>::empty());
    assert(fs.last() == f);
    let c = delegation_call(f, g, impl_trait_ident(attr.impl_trait), dk_view(attr.delegation_kind), core, contains_async, span);
    assert(c == call_ref_self(f, rd, span));
    let m = methods_toks(fs, g, attr, contains_async, span);
    assert(methods_toks(Seq::<TraitFnV>::empty(), g, attr, contains_async, span) == Seq::<TokV>::empty());
    assert(methods_toks(fs.drop_last(), g, attr, contains_async, span) == Seq::<TokV>::empty());
    assert(m =~= delegating_method_toks(f, c, span));
    let tail = args_list(f, span) + seq![close_v(Delimiter::Parenthesis, span)]
        + (if f.originally_async { dot_await(span) } else { Seq::empty() }) + seq![close_v(Delimiter::Brace, span)];
    assert(m =~= f.attrs + sig_toks(f.sig) + seq![open_v(Delimiter::Brace, span)] + c.subrange(0, 12) + tail);
}


/// Delegating through `AsRef` or `Borrow` to an implementation trait: every delegating method
/// calls `<EntraitT as ::core::<module>::<Trait><dyn ImplTrait<EntraitT>..>>::<accessor>(&*self)`
/// with the accessor of that same core trait (`borrow` of `::core::borrow::Borrow`, `as_ref`
/// of `::core::convert::AsRef`), and the implementation bounds `EntraitT` by that trait.
pub proof fn lemma_ref_delegation_to_impl_trait_accessor(
    attr: EntraitTraitAttr,
    f: TraitFnV,
    g: GenericV,
    rd: RefDelegate,
    contains_async: bool,
    trait_ident: IdentV,
    tg: TraitGenericsV,
    span: Span,
    gen_span: Span,
)
    requires
        attr.impl_trait is Some,
        dk_view(attr.delegation_kind) == Some(DelegateV::ByRef(rd)),
    ensures
        ({
            let core = attr.crate_idents.core@;
            let m = methods_toks(seq![f], g, attr, contains_async, span);
            let k = (f.attrs.len() + sig_toks(f.sig).len() + 1) as int;
            let o: int = if contains_async { 24 } else { 22 };
            let bounds = impl_t_bounds_spec(g, impl_trait_ident(attr.impl_trait), dk_view(attr.delegation_kind), core, contains_async, trait_ident, tg, span, gen_span);
            let (module, tr, accessor) = if rd == RefDelegate::Borrow { ("borrow"@, "Borrow"@, "borrow"@) } else { ("convert"@, "AsRef"@, "as_ref"@) };
            &&& k + o + 1 <= m.len()
            &&& m[k + 5] == ident_v(core.name, core.span)
            &&& m[k + 8] == ident_v(module, span)
            &&& m[k + 11] == ident_v(tr, span)
            &&& m[k + o] == ident_v(accessor, span)
            &&& 11 <= bounds.len()
            &&& bounds[0] == ident_v(g.impl_t.name, g.impl_t.span)
            &&& bounds[4] == ident_v(core.name, core.span)
            &&& bounds[7] == ident_v(module, span)
            &&& bounds[10] == ident_v(tr, span)
        }),
{
    let core = attr.crate_idents.core@;
    let fs = seq![f];
    assert(fs.drop_last() =~= Seq::<TraitFnV>::empty());
    assert(fs.last() == f);
    let it = impl_trait_ident(attr.impl_trait)->Some_0;
    let c = delegation_call(f, g, impl_trait_ident(attr.impl_trait), dk_view(attr.delegation_kind), core, contains_async, span);
    assert(c == call_by_ref(f, g, it, rd, core, contains_async, span));
    let m = methods_toks(fs, g, attr, contains_async, span);
    assert(methods_toks(Seq::<TraitFnV>::empty(), g, attr, contains_async, span) == Seq::<TokV>::empty());
    assert(methods_toks(fs.drop_last(), g, attr, contains_async, span) == Seq::<TokV>::empty());
    assert(m =~= delegating_method_toks(f, c, span));
    let pre = f.attrs + sig_toks(f.sig) + seq![open_v(Delimiter::Brace, span)];
    let tail = (if f.originally_async { dot_await(span) } else { Seq::empty() }) + seq![close_v(Delimiter::Brace, span)];
    assert(m =~= pre + c + tail);
    let k = pre.len() as int;
    let o: int = if contains_async { 24 } else { 22 };
    let (module, tr, accessor) = if rd == RefDelegate::Borrow { ("borrow"@, "Borrow"@, "borrow"@) } else { ("convert"@, "AsRef"@, "as_ref"@) };
    let path = core_trait_path(core, rd, span);
    assert(path.len() == 9);
    assert(path[2] == ident_v(core.name, core.span));
    assert(path[5] == ident_v(module, span));
    assert(path[8] == ident_v(tr, span));
    let t = ident_v(g.impl_t.name, g.impl_t.span);
    let head = seq![punct_v('<', Spacing::Alone, span), t, ident_v("as"@, span)] + path
        + seq![punct_v('<', Spacing::Alone, span), ident_v("dyn"@, span), ident_v(it.name, it.span), punct_v('<', Spacing::Alone, span), t, punct_v('>', Spacing::Alone, span)]
        + (if contains_async { plus_word("Sync"@, span) } else { Seq::empty() })
        + seq![punct_v('>', Spacing::Alone, span), punct_v('>', Spacing::Alone, span)] + path_sep_v(span);
    assert(head.len() == o);
    assert(head[4] == path[1]);
    assert(head[5] == path[2]);
    assert(c.subrange(0, o) =~= head);
    assert(c[o] == ident_v(accessor, span));
    assert(c[5] == head[5]);
    assert(c[8] == head[8]);
    assert(c[11] == head[11]);
    let bounds = impl_t_bounds_spec(g, impl_trait_ident(attr.impl_trait), dk_view(attr.delegation_kind), core, contains_async, trait_ident, tg, span, gen_span);
    assert(bounds.subrange(0, 11) =~= seq![t, punct_v(':', Spacing::Alone, span)] + path);
    assert(bounds[4] == path[2]);
    assert(bounds[7] == path[5]);
    assert(bounds[10] == path[8]);
    assert(m[k + 5] == c[5]);
    assert(m[k + 8] == c[8]);
    assert(m[k + 11] == c[11]);
    assert(m[k + o] == c[o]);
    assert(c.len() > o);
    assert(k == (f.attrs.len() + sig_toks(f.sig).len() + 1) as int);
    assert(k + o + 1 <= m.len());
    assert(m[k + o] == ident_v(accessor, span));
    assert(m[k + 8] == ident_v(module, span));
    assert(m[k + 11] == ident_v(tr, span));
    assert(m[k + 5] == ident_v(core.name, core.span));
    assert(bounds[0] == t);
}

} // verus!
