//! Turns the signature of an entraited function into the signature of its trait method.

use vstd::prelude::*;
use proc_macro2::Span;
use crate::analyze_generics::{FnDeps, FnDepsV};
use crate::fn_params::{fix_fn_param_idents, fixed_pats, pat_views, same_but_pat, same_but_pats, arg_pat};
use crate::model::{
    FnArg, FnArgV, GenericParam, GenericParamKind, GenericParamV, Ident, IdentV, LifetimeSlot, PatModel, PatV, ShapeV,
    Signature, SigV, SlotKind, SlotV, TypeModel, TypeShape, TypeV, WherePredicate, WherePredicateV, args_view,
    params_view, preds_view, bounds_view, idents_view, slots_view,
};
use crate::signature::{EntraitSignature, ImplReceiverKind, ReceiverGeneration};
use crate::tokens::{Tok, TokV, TokenKind, Spacing, tv, ident_v, punct_v, push_tok, push_path_sep, push_punct, ident, ident_of};
use crate::text::owned;

verus! {

/// Attributes on parameters are dropped.
pub open spec fn strip_attrs(a: FnArgV) -> FnArgV {
    match a {
        FnArgV::Typed { pat, ty, .. } => FnArgV::Typed { attrs: Seq::empty(), pat, ty },
        _ => a,
    }
}

/// Without dependency the receiver is inserted; otherwise the first parameter becomes the
/// receiver, if there is one.
pub open spec fn receiver_generation(deps: FnDepsV, n_inputs: nat) -> ReceiverGeneration {
    match deps {
        FnDepsV::NoDeps => ReceiverGeneration::Insert,
        _ => if n_inputs == 0 {
            ReceiverGeneration::Unchanged
        } else {
            ReceiverGeneration::Rewrite
        },
    }
}

/// `&self`
pub open spec fn self_ref_v(span: Span) -> FnArgV {
    FnArgV::Receiver { reference: Some(SlotV { kind: SlotKind::Reference, name: None }), mutable: false, self_ty: None, span }
}

/// The lifetime slot of a reference type, its first slot.
pub open spec fn own_slot(t: TypeV) -> SlotV {
    if t.slots.len() > 0 {
        t.slots[0]
    } else {
        SlotV { kind: SlotKind::Reference, name: None }
    }
}

/// The first parameter as receiver: a reference keeps its lifetime, anything else becomes `&self`.
pub open spec fn rewrite_first(a: FnArgV, span: Span) -> FnArgV {
    match a {
        FnArgV::Typed { ty, .. } => match ty.shape {
            ShapeV::Reference(_) => FnArgV::Receiver { reference: Some(own_slot(ty)), mutable: false, self_ty: None, span },
            _ => self_ref_v(span),
        },
        _ => a,
    }
}

/// The tokens of `::entrait::Impl<EntraitT>`.
pub open spec fn impl_path_toks(entrait: IdentV, span: Span) -> Seq<TokV> {
    seq![
        punct_v(':', Spacing::Joint, span), punct_v(':', Spacing::Alone, span),
        ident_v(entrait.name, entrait.span),
        punct_v(':', Spacing::Joint, span), punct_v(':', Spacing::Alone, span),
        ident_v("Impl"@, span),
        punct_v('<', Spacing::Alone, span), ident_v("EntraitT"@, span), punct_v('>', Spacing::Alone, span)
    ]
}

pub open spec fn impl_path_type(entrait: IdentV, span: Span) -> TypeV {
    TypeV {
        shape: ShapeV::Path {
            qself: false,
            leading_colon: true,
            segments: seq![entrait, IdentV { name: "Impl"@, span }],
        },
        tokens: impl_path_toks(entrait, span),
        slots: Seq::empty(),
        span,
    }
}

/// The type of the `__impl` parameter: `&'a ::entrait::Impl<EntraitT>` with the given reference,
/// or the path alone.
pub open spec fn impl_param_type(reference: Option<SlotV>, entrait: IdentV, span: Span) -> TypeV {
    match reference {
        Some(slot) => TypeV {
            shape: ShapeV::Reference(Box::new(impl_path_type(entrait, span))),
            tokens: seq![punct_v('&', Spacing::Alone, span), crate::tokens::TokV { kind: crate::tokens::TokKindV::Slot(0), span }]
                + impl_path_toks(entrait, span),
            slots: seq![slot],
            span,
        },
        None => impl_path_type(entrait, span),
    }
}

/// `__impl: &'a ::entrait::Impl<EntraitT>`
pub open spec fn impl_param_v(reference: Option<SlotV>, entrait: IdentV, span: Span) -> FnArgV {
    FnArgV::Typed {
        attrs: Seq::empty(),
        pat: PatV::Ident { by_ref: false, mutable: false, ident: "__impl"@, span },
        ty: impl_param_type(reference, entrait, span),
    }
}

pub open spec fn receiver_ref(a: FnArgV) -> Option<SlotV> {
    match a {
        FnArgV::Receiver { reference, .. } => reference,
        _ => None,
    }
}

/// For a generated implementation, the receiver becomes the `__impl` parameter (static), or the
/// `__impl` parameter follows it (dynamic).
pub open spec fn with_impl_param(args: Seq<FnArgV>, kind: ImplReceiverKind, entrait: IdentV, span: Span) -> Seq<FnArgV> {
    if args.len() > 0 && args[0] is Receiver {
        match kind {
            ImplReceiverKind::SelfRef => args,
            ImplReceiverKind::StaticImpl => args.update(0, impl_param_v(receiver_ref(args[0]), entrait, span)),
            ImplReceiverKind::DynamicImpl => args.insert(
                1,
                impl_param_v(Some(SlotV { kind: SlotKind::Reference, name: None }), entrait, span),
            ),
        }
    } else {
        args
    }
}

pub open spec fn generated_params(args: Seq<FnArgV>, rg: ReceiverGeneration, kind: ImplReceiverKind, entrait: IdentV, span: Span) -> Seq<FnArgV> {
    let a1 = match rg {
        ReceiverGeneration::Insert => seq![self_ref_v(span)] + args,
        ReceiverGeneration::Rewrite => args.update(0, rewrite_first(args[0], span)),
        ReceiverGeneration::Unchanged => args,
    };
    with_impl_param(a1, kind, entrait, span)
}

/// Lifetime and const parameters; type parameters are dropped.
pub open spec fn non_type_params(ps: Seq<GenericParamV>) -> Seq<GenericParamV>
    decreases ps.len(),
{
    if ps.len() == 0 {
        Seq::empty()
    } else {
        let r = non_type_params(ps.drop_last());
        if ps.last().kind != GenericParamKind::Type { r.push(ps.last()) } else { r }
    }
}

/// A path type of one segment named `name`.
pub open spec fn is_one_segment(ty: TypeV, name: Seq<char>) -> bool {
    ty.shape matches ShapeV::Path { segments, .. } && segments.len() == 1 && segments[0].name == name
}

pub open spec fn deps_ident(d: FnDepsV) -> Option<Seq<char>> {
    match d {
        FnDepsV::Generic { generic_param: Some(i), .. } => Some(i.name),
        _ => None,
    }
}

/// Predicates on the dependency's type parameter are dropped.
pub open spec fn keeps_pred(p: WherePredicateV, dep: Option<Seq<char>>) -> bool {
    match (p.bounded, dep) {
        (Some(t), Some(n)) => !is_one_segment(t, n),
        _ => true,
    }
}

pub open spec fn kept_preds(ps: Seq<WherePredicateV>, dep: Option<Seq<char>>) -> Seq<WherePredicateV>
    decreases ps.len(),
{
    if ps.len() == 0 {
        Seq::empty()
    } else {
        let r = kept_preds(ps.drop_last(), dep);
        if keeps_pred(ps.last(), dep) { r.push(ps.last()) } else { r }
    }
}

/// An empty where clause is left out.
pub open spec fn tidy_where(w: Option<Seq<WherePredicateV>>) -> Option<Seq<WherePredicateV>> {
    match w {
        Some(ps) => if ps.len() == 0 { None } else { Some(ps) },
        None => None,
    }
}

pub open spec fn pat_of(a: FnArgV) -> Option<PatV> {
    match a {
        FnArgV::Typed { pat, .. } => Some(pat),
        _ => None,
    }
}

pub open spec fn pats_of(args: Seq<FnArgV>) -> Seq<Option<PatV>> {
    args.map_values(|a: FnArgV| pat_of(a))
}

pub open spec fn set_pat(a: FnArgV, p: Option<PatV>) -> FnArgV {
    match (a, p) {
        (FnArgV::Typed { attrs, ty, .. }, Some(pp)) => FnArgV::Typed { attrs, pat: pp, ty },
        _ => a,
    }
}

pub open spec fn set_pats(args: Seq<FnArgV>, ps: Seq<Option<PatV>>) -> Seq<FnArgV> {
    Seq::new(args.len(), |i: int| set_pat(args[i], ps[i]))
}

/// The trait method signature made from a function signature: parameter attributes are
/// dropped, the receiver is generated, type parameters and the predicates on the dependency's
/// parameter are removed, an empty where clause is left out, and parameters get plain names
/// (generated names are located at `gen_span`).
pub open spec fn converted_sig(input: SigV, deps: FnDepsV, kind: ImplReceiverKind, entrait: IdentV, trait_span: Span, gen_span: Span) -> SigV {
    let stripped = input.inputs.map_values(|a: FnArgV| strip_attrs(a));
    let rg = receiver_generation(deps, input.inputs.len());
    let args = generated_params(stripped, rg, kind, entrait, trait_span);
    SigV {
        inputs: set_pats(args, fixed_pats(pats_of(args), input.ident, gen_span)),
        params: non_type_params(input.params),
        where_clause: tidy_where(match input.where_clause {
            Some(ps) => Some(kept_preds(ps, deps_ident(deps))),
            None => None,
        }),
        ..input
    }
}

/// Whether the first parameter must become the receiver although it is one already: the case
/// the conversion does not handle.
pub open spec fn rewrites_receiver(sig: SigV, deps: FnDepsV) -> bool {
    receiver_generation(deps, sig.inputs.len()) == ReceiverGeneration::Rewrite && sig.inputs[0] is Receiver
}

fn self_ref(span: Span) -> (a: FnArg)
    ensures
        a@ == self_ref_v(span),
{
    FnArg::Receiver { reference: Some(LifetimeSlot { kind: SlotKind::Reference, name: None }), mutable: false, self_ty: None, span }
}

fn impl_path_tokens(out: &mut Vec<Tok>, entrait: &Ident, span: Span)
    ensures
        tv(final(out)@) == tv(old(out)@) + impl_path_toks(entrait@, span),
{
    let ghost base = tv(out@);
    push_path_sep(out, span);
    push_tok(out, ident_of(&entrait.name, entrait.span));
    push_path_sep(out, span);
    push_tok(out, ident("Impl", span));
    push_punct(out, '<', span);
    push_tok(out, ident("EntraitT", span));
    push_punct(out, '>', span);
    proof {
        reveal_strlit("Impl");
        reveal_strlit("EntraitT");
    }
    assert(tv(out@) =~= base + impl_path_toks(entrait@, span));
}

fn impl_path_model(entrait: &Ident, span: Span) -> (t: TypeModel)
    ensures
        t@ == impl_path_type(entrait@, span),
{
    let mut tokens: Vec<Tok> = Vec::new();
    impl_path_tokens(&mut tokens, entrait, span);
    let mut segments: Vec<Ident> = Vec::new();
    segments.push(entrait.duplicate());
    segments.push(Ident { name: owned("Impl"), span });
    proof { reveal_strlit("Impl"); }
    let t = TypeModel {
        shape: TypeShape::Path { qself: false, leading_colon: true, segments },
        tokens,
        slots: Vec::new(),
        span,
    };
    assert(idents_view(segments@) =~= seq![entrait@, IdentV { name: "Impl"@, span }]);
    assert(slots_view(t.slots@) =~= Seq::<SlotV>::empty());
    assert(tv(t.tokens@) =~= impl_path_toks(entrait@, span));
    t
}

/// The `__impl` parameter.
pub fn impl_param(reference: Option<LifetimeSlot>, entrait: &Ident, span: Span) -> (a: FnArg)
    ensures
        a@ == impl_param_v(match reference { Some(r) => Some(r@), None => None }, entrait@, span),
{
    proof { reveal_strlit("__impl"); }
    let ty = match reference {
        Some(slot) => {
            let ghost sv = slot@;
            let mut tokens: Vec<Tok> = Vec::new();
            push_punct(&mut tokens, '&', span);
            push_tok(&mut tokens, Tok { kind: TokenKind::Slot(0), span });
            impl_path_tokens(&mut tokens, entrait, span);
            let mut slots: Vec<LifetimeSlot> = Vec::new();
            slots.push(slot);
            let t = TypeModel { shape: TypeShape::Reference { elem: Box::new(impl_path_model(entrait, span)) }, tokens, slots, span };
            assert(slots_view(t.slots@) =~= seq![sv]);
            assert(tv(t.tokens@) =~= seq![punct_v('&', Spacing::Alone, span), crate::tokens::TokV { kind: crate::tokens::TokKindV::Slot(0), span }]
                + impl_path_toks(entrait@, span));
            assert(t@ == impl_param_type(Some(sv), entrait@, span));
            t
        },
        None => impl_path_model(entrait, span),
    };
    assert(tv(Seq::<Tok>::empty()) =~= Seq::<TokV>::empty());
    FnArg::Typed {
        attrs: Vec::new(),
        pat: PatModel::Ident { by_ref: false, mutable: false, ident: owned("__impl"), span },
        ty,
    }
}

fn strip_all(args: Vec<FnArg>) -> (r: Vec<FnArg>)
    ensures
        args_view(r@) == args_view(args@).map_values(|a: FnArgV| strip_attrs(a)),
{
    let ghost av = args_view(args@);
    let n = args.len();
    let mut rest = args;
    let mut out: Vec<FnArg> = Vec::new();
    let mut i: usize = 0;
    while i < n
        invariant
            n == av.len(),
            i <= n,
            rest@.len() == n - i,
            forall|j: int| 0 <= j < n - i ==> #[trigger] rest@[j]@ == av[j + i],
            out@.len() == i,
            forall|j: int| 0 <= j < i ==> #[trigger] out@[j]@ == strip_attrs(av[j]),
        decreases n - i,
    {
        let a = rest.remove(0);
        assert(a@ == av[i as int]);
        let b = match a {
            FnArg::Typed { pat, ty, .. } => FnArg::Typed { attrs: Vec::new(), pat, ty },
            other => other,
        };
        assert(tv(Seq::<Tok>::empty()) =~= Seq::<TokV>::empty());
        out.push(b);
        i = i + 1;
    }
    assert(args_view(out@) =~= av.map_values(|a: FnArgV| strip_attrs(a)));
    out
}

fn rewrite_arg(a: FnArg, span: Span) -> (r: FnArg)
    ensures
        r@ == rewrite_first(a@, span),
{
    match a {
        FnArg::Typed { ty, attrs, pat } => {
            match ty.shape {
                TypeShape::Reference { .. } => {
                    let ghost tyv = ty@;
                    let slot = if ty.slots.len() > 0 {
                        ty.slots[0].duplicate()
                    } else {
                        LifetimeSlot { kind: SlotKind::Reference, name: None }
                    };
                    FnArg::Receiver { reference: Some(slot), mutable: false, self_ty: None, span }
                },
                _ => self_ref(span),
            }
        },
        other => other,
    }
}

/// Generates the receiver, and the `__impl` parameter of a generated implementation.
fn generate_params(args: &mut Vec<FnArg>, rg: ReceiverGeneration, kind: ImplReceiverKind, entrait: &Ident, span: Span)
    requires
        rg == ReceiverGeneration::Rewrite ==> old(args)@.len() > 0,
    ensures
        args_view(final(args)@) == generated_params(args_view(old(args)@), rg, kind, entrait@, span),
{
    let ghost a0 = args_view(args@);
    match rg {
        ReceiverGeneration::Insert => {
            args.insert(0, self_ref(span));
            assert(args_view(args@) =~= seq![self_ref_v(span)] + a0);
        },
        ReceiverGeneration::Rewrite => {
            let first = args.remove(0);
            let r = rewrite_arg(first, span);
            args.insert(0, r);
            assert(args_view(args@) =~= a0.update(0, rewrite_first(a0[0], span)));
        },
        ReceiverGeneration::Unchanged => {},
    }
    let ghost a1 = args_view(args@);
    let is_receiver = args.len() > 0 && match &args[0] {
        FnArg::Receiver { .. } => true,
        _ => false,
    };
    if is_receiver {
        match kind {
            ImplReceiverKind::SelfRef => {},
            ImplReceiverKind::StaticImpl => {
                let first = args.remove(0);
                let reference = match first {
                    FnArg::Receiver { reference, .. } => reference,
                    _ => None,
                };
                args.insert(0, impl_param(reference, entrait, span));
                assert(args_view(args@) =~= a1.update(0, impl_param_v(receiver_ref(a1[0]), entrait@, span)));
            },
            ImplReceiverKind::DynamicImpl => {
                args.insert(1, impl_param(Some(LifetimeSlot { kind: SlotKind::Reference, name: None }), entrait, span));
                assert(args_view(args@) =~= a1.insert(1, impl_param_v(Some(SlotV { kind: SlotKind::Reference, name: None }), entrait@, span)));
            },
        }
    }
}

fn remove_type_params(params: Vec<GenericParam>) -> (r: Vec<GenericParam>)
    ensures
        params_view(r@) == non_type_params(params_view(params@)),
{
    let ghost pv = params_view(params@);
    let mut out: Vec<GenericParam> = Vec::new();
    let n = params.len();
    let mut rest = params;
    let mut i: usize = 0;
    while i < n
        invariant
            n == pv.len(),
            i <= n,
            rest@.len() == n - i,
            forall|j: int| 0 <= j < n - i ==> #[trigger] rest@[j]@ == pv[j + i],
            params_view(out@) == non_type_params(pv.take(i as int)),
        decreases n - i,
    {
        let p = rest.remove(0);
        let ghost t = pv.take(i + 1);
        assert(t.drop_last() =~= pv.take(i as int));
        assert(t.last() == p@);
        if p.kind != GenericParamKind::Type {
            let ghost before = params_view(out@);
            out.push(p);
            assert(params_view(out@) =~= before.push(t.last()));
        }
        i = i + 1;
    }
    assert(pv.take(n as int) =~= pv);
    out
}

fn is_one_segment_exec(ty: &TypeModel, name: &String) -> (r: bool)
    ensures
        r == is_one_segment(ty@, name@),
{
    match &ty.shape {
        TypeShape::Path { segments, .. } => {
            if segments.len() == 1 {
                assert(ty@.shape->Path_segments[0] == segments@[0]@);
                crate::text::str_eq(segments[0].name.as_str(), name.as_str())
            } else {
                false
            }
        },
        _ => false,
    }
}

fn remove_dep_preds(preds: Vec<WherePredicate>, dep: &Option<Ident>) -> (r: Vec<WherePredicate>)
    ensures
        preds_view(r@) == kept_preds(preds_view(preds@), match dep { Some(i) => Some(i.name@), None => None }),
{
    let ghost pv = preds_view(preds@);
    let ghost d = match dep { Some(i) => Some(i.name@), None => None::<Seq<char>> };
    let mut out: Vec<WherePredicate> = Vec::new();
    let n = preds.len();
    let mut rest = preds;
    let mut i: usize = 0;
    while i < n
        invariant
            n == pv.len(),
            i <= n,
            d == match dep { Some(i) => Some(i.name@), None => None::<Seq<char>> },
            rest@.len() == n - i,
            forall|j: int| 0 <= j < n - i ==> #[trigger] rest@[j]@ == pv[j + i],
            preds_view(out@) == kept_preds(pv.take(i as int), d),
        decreases n - i,
    {
        let p = rest.remove(0);
        let ghost t = pv.take(i + 1);
        assert(t.drop_last() =~= pv.take(i as int));
        assert(t.last() == p@);
        let keep = match (&p.bounded, dep) {
            (Some(ty), Some(id)) => !is_one_segment_exec(ty, &id.name),
            _ => true,
        };
        assert(keep == keeps_pred(p@, d));
        if keep {
            let ghost before = preds_view(out@);
            out.push(p);
            assert(preds_view(out@) =~= before.push(t.last()));
        }
        i = i + 1;
    }
    assert(pv.take(n as int) =~= pv);
    out
}

proof fn lemma_set_pats(a: Seq<FnArg>, b: Seq<FnArg>)
    requires
        same_but_pats(a, b),
    ensures
        args_view(b) == set_pats(args_view(a), pat_views(b)),
        pats_of(args_view(a)) == pat_views(a),
{
    assert forall|i: int| 0 <= i < a.len() implies #[trigger] args_view(b)[i] == set_pats(args_view(a), pat_views(b))[i] by {
        assert(same_but_pat(a[i], b[i]));
    }
    assert(args_view(b) =~= set_pats(args_view(a), pat_views(b)));
    assert(pats_of(args_view(a)) =~= pat_views(a));
}

/// Converts a standalone `fn` signature to a trait `fn` signature.
pub fn convert_fn_to_trait_fn(input: Signature, deps: &FnDeps, kind: ImplReceiverKind, entrait: &Ident, trait_span: Span, gen_span: Span) -> (r: EntraitSignature)
    requires
        !rewrites_receiver(input@, deps@),
    ensures
        r.sig@ == converted_sig(input@, deps@, kind, entrait@, trait_span, gen_span),
        r.et_lifetimes@.len() == 0,
{
    let ghost iv = input@;
    let mut sig = input;
    let mut inputs: Vec<FnArg> = Vec::new();
    std::mem::swap(&mut inputs, &mut sig.inputs);
    let n = inputs.len();
    let mut inputs = strip_all(inputs);
    let ghost stripped = args_view(inputs@);
    let rg = match deps {
        FnDeps::NoDeps => ReceiverGeneration::Insert,
        _ => if n == 0 { ReceiverGeneration::Unchanged } else { ReceiverGeneration::Rewrite },
    };
    assert(rg == receiver_generation(deps@, iv.inputs.len()));
    generate_params(&mut inputs, rg, kind, entrait, trait_span);
    let ghost generated = args_view(inputs@);
    sig.inputs = inputs;

    let mut params: Vec<GenericParam> = Vec::new();
    std::mem::swap(&mut params, &mut sig.generics.params);
    sig.generics.params = remove_type_params(params);

    let dep: Option<Ident> = match deps {
        FnDeps::Generic { generic_param: Some(i), .. } => Some(i.duplicate()),
        _ => None,
    };
    let mut where_clause: Option<Vec<WherePredicate>> = None;
    std::mem::swap(&mut where_clause, &mut sig.generics.where_clause);
    sig.generics.where_clause = match where_clause {
        Some(preds) => {
            let kept = remove_dep_preds(preds, &dep);
            if kept.len() == 0 { None } else { Some(kept) }
        },
        None => None,
    };

    let ghost before_fix = sig.inputs@;
    fix_fn_param_idents(&mut sig, gen_span);
    proof {
        lemma_set_pats(before_fix, sig.inputs@);
        assert(args_view(before_fix) == generated);
    }
    assert(sig@ =~= converted_sig(iv, deps@, kind, entrait@, trait_span, gen_span));
    EntraitSignature::new(sig)
}


/// Every typed parameter has a plain identifier pattern.
pub open spec fn typed_args_plain(args: Seq<FnArgV>) -> bool {
    forall|i: int| 0 <= i < args.len() ==> (#[trigger] args[i] is Typed ==> args[i]->Typed_pat is Ident)
}

/// The methods made by the conversion have plain parameter names, so that the generated
/// implementations can pass them on.
pub proof fn lemma_converted_args_plain(input: SigV, deps: FnDepsV, kind: ImplReceiverKind, entrait: IdentV, trait_span: Span, gen_span: Span)
    ensures
        typed_args_plain(converted_sig(input, deps, kind, entrait, trait_span, gen_span).inputs),
{
    let stripped = input.inputs.map_values(|a: FnArgV| strip_attrs(a));
    let rg = receiver_generation(deps, input.inputs.len());
    let args = generated_params(stripped, rg, kind, entrait, trait_span);
    let ps = pats_of(args);
    let fixed = fixed_pats(ps, input.ident, gen_span);
    crate::fn_params::lemma_fixed_pats_plain(ps, input.ident, gen_span);
    crate::fn_params::lemma_fixed_pats_shape(ps, input.ident, gen_span);
    let out = set_pats(args, fixed);
    assert forall|i: int| 0 <= i < out.len() && #[trigger] out[i] is Typed implies out[i]->Typed_pat is Ident by {
        {
            assert(args[i] is Typed);
            assert(ps[i] is Some);
            assert(fixed[i] is Some);
            assert(crate::fn_params::is_plain(fixed[i]));
        }
    }
}
/// The dependency parameter comes first and becomes the receiver `&self` of the trait method
/// (`no_deps`: `&self` is put before all parameters); the other parameters keep their types
/// and their order, and the name, asyncness and return type stay as written.
pub proof fn lemma_receiver_takes_first_place(input: SigV, deps: FnDepsV, entrait: IdentV, trait_span: Span, gen_span: Span)
    requires
        deps is NoDeps || input.inputs.len() > 0,
        forall|i: int| 0 <= i < input.inputs.len() ==> #[trigger] input.inputs[i] is Typed,
    ensures
        ({
            let s = converted_sig(input, deps, ImplReceiverKind::SelfRef, entrait, trait_span, gen_span);
            let skip: int = if deps is NoDeps { 0 } else { 1 };
            &&& s.inputs.len() == input.inputs.len() + 1 - skip
            &&& s.inputs[0] matches FnArgV::Receiver { reference: Some(_), mutable: false, self_ty: None, .. }
            &&& forall|i: int| 1 <= i < s.inputs.len() ==> (#[trigger] s.inputs[i] matches FnArgV::Typed { ty, .. }
                && ty == input.inputs[i - 1 + skip]->Typed_ty)
            &&& s.ident == input.ident
            &&& s.asyncness == input.asyncness
            &&& s.output == input.output
        }),
{
    let stripped = input.inputs.map_values(|a: FnArgV| strip_attrs(a));
    let rg = receiver_generation(deps, input.inputs.len());
    let args = generated_params(stripped, rg, ImplReceiverKind::SelfRef, entrait, trait_span);
    let ps = pats_of(args);
    let fixed = fixed_pats(ps, input.ident, gen_span);
    crate::fn_params::lemma_fixed_pats_plain(ps, input.ident, gen_span);
    let s = converted_sig(input, deps, ImplReceiverKind::SelfRef, entrait, trait_span, gen_span);
    let skip: int = if deps is NoDeps { 0 } else { 1 };
    let a1 = match rg {
        ReceiverGeneration::Insert => seq![self_ref_v(trait_span)] + stripped,
        ReceiverGeneration::Rewrite => stripped.update(0, rewrite_first(stripped[0], trait_span)),
        ReceiverGeneration::Unchanged => stripped,
    };
    assert(a1[0] is Receiver);
    assert(args == a1);
    assert(s.inputs == set_pats(args, fixed));
    assert(s.inputs[0] == args[0]);
    assert forall|i: int| 1 <= i < s.inputs.len() implies (#[trigger] s.inputs[i] matches FnArgV::Typed { ty, .. }
        && ty == input.inputs[i - 1 + skip]->Typed_ty) by {
        assert(args[i] == stripped[i - 1 + skip]);
        assert(input.inputs[i - 1 + skip] is Typed);
    }
}

/// Tidying a where clause leaves it out exactly when it has no predicates, keeps it as it is
/// otherwise, and tidying a second time changes nothing.
pub proof fn lemma_tidy_where(w: Option<Seq<WherePredicateV>>)
    ensures
        tidy_where(w) is None <==> (w is None || w->0.len() == 0),
        tidy_where(w) is Some ==> tidy_where(w) == w,
        tidy_where(tidy_where(w)) == tidy_where(w),
{
}

} // verus!
