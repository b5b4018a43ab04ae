//! `static_async_trait`: turns each `async fn` of a trait, or of a trait impl, into a plain
//! method that returns an associated future type.

use vstd::prelude::*;
use proc_macro2::Span;
use crate::model::{FnArg, FnArgV, TypeModel, TypeV, SlotV, Signature, args_view, slots_view};
use crate::lifetimes::{LtState, run_args, component_of, lemma_run_slots_len, output_target, elided_list, start_state, arg_slots, output_slots, named, same_but_lifetimes, same_but_slot_names, slot_views, de_elided, de_elide_lifetimes};
use crate::signature::{SigComponent, EntraitSignature, EntraitLifetime, EtV, ReceiverGeneration, ets_view};
use crate::model::{GenericParam, GenericParamV, GenericParamKind, Ident, IdentV, params_view, dup_params};
use crate::tokens::{Tok, TokV, Spacing, Delimiter, tv, ident_v, punct_v, lifetime_v, open_v, close_v, path_sep_v, join, items_view,
    extend, push_tok, push_ident, push_punct, push_open, push_close, push_path_sep, push_joined, punct_vec, lifetime, ident_of};
use crate::render::{params_toks, args_toks, opt_where_toks, type_toks, push_params, push_args, push_opt_where, push_type, opt_type_view};
use crate::text::copy_string;
use crate::error::{MacroError, ErrV};

verus! {

/// A type with its lifetime slots given the names `names`, in order.
pub open spec fn rename_type_v(t: TypeV, names: Seq<Seq<char>>) -> TypeV {
    TypeV { slots: named(t.slots, names), ..t }
}

/// A parameter with its lifetime slots given the names `names`, in visiting order: the
/// receiver's reference first, then the slots of its type.
pub open spec fn rename_arg_v(a: FnArgV, names: Seq<Seq<char>>) -> FnArgV {
    match a {
        FnArgV::Receiver { reference, mutable, self_ty, span } => {
            let k: int = if reference is Some { 1 } else { 0 };
            FnArgV::Receiver {
                reference: match reference {
                    Some(r) => Some(SlotV { kind: r.kind, name: Some(names[0]) }),
                    None => None,
                },
                mutable,
                self_ty: match self_ty {
                    Some(t) => Some(rename_type_v(t, names.skip(k))),
                    None => None,
                },
                span,
            }
        },
        FnArgV::Typed { attrs, pat, ty } => FnArgV::Typed { attrs, pat, ty: rename_type_v(ty, names) },
    }
}

/// The signature with every lifetime made explicit, the first parameter taken as the
/// receiver: its parameters and output, and the lifetimes gathered on the way.
pub open spec fn explicit_inputs(sig: Signature) -> Seq<FnArgV> {
    let r = de_elided(sig.inputs@, output_slots(sig.output), ReceiverGeneration::Rewrite);
    Seq::new(sig.inputs@.len(), |i: int| rename_arg_v(args_view(sig.inputs@)[i], r.1[i]))
}

pub open spec fn explicit_output(sig: Signature) -> Option<TypeV> {
    let r = de_elided(sig.inputs@, output_slots(sig.output), ReceiverGeneration::Rewrite);
    match sig.output {
        Some(t) => Some(rename_type_v(t@, r.2)),
        None => None,
    }
}

pub open spec fn explicit_lifetimes(sig: Signature) -> Seq<crate::signature::EtV> {
    de_elided(sig.inputs@, output_slots(sig.output), ReceiverGeneration::Rewrite).0.ets
}

proof fn lemma_renamed_type(a: TypeModel, b: TypeModel, names: Seq<Seq<char>>)
    requires
        same_but_slot_names(a, b),
        slot_views(b.slots@) == named(slot_views(a.slots@), names),
    ensures
        b@ == rename_type_v(a@, names),
{
    assert(slots_view(b.slots@) =~= slot_views(b.slots@));
    assert(slots_view(a.slots@) =~= slot_views(a.slots@));
    assert(b@.slots =~= rename_type_v(a@, names).slots);
}

proof fn lemma_renamed_arg(a: FnArg, b: FnArg, names: Seq<Seq<char>>)
    requires
        same_but_lifetimes(a, b),
        names.len() == arg_slots(a).len(),
        arg_slots(b) == named(arg_slots(a), names),
    ensures
        b@ == rename_arg_v(a@, names),
{
    match (a, b) {
        (FnArg::Receiver { reference: r1, self_ty: t1, .. }, FnArg::Receiver { reference: r2, self_ty: t2, .. }) => {
            let k: int = if r1 is Some { 1 } else { 0 };
            let sa = arg_slots(a);
            let sb = arg_slots(b);
            if r1 is Some {
                assert(sb[0] == r2->0@);
                assert(sa[0] == r1->0@);
                assert(r2->0@ == SlotV { kind: r1->0.kind, name: Some(names[0]) });
            }
            match t1 {
                Some(x) => {
                    let y = t2->0;
                    assert(slot_views(y.slots@) =~= named(slot_views(x.slots@), names.skip(k))) by {
                        assert forall|j: int| 0 <= j < x.slots@.len() implies #[trigger] slot_views(y.slots@)[j] == named(slot_views(x.slots@), names.skip(k))[j] by {
                            assert(sb[k + j] == slot_views(y.slots@)[j]);
                            assert(sa[k + j] == slot_views(x.slots@)[j]);
                        }
                    }
                    lemma_renamed_type(x, y, names.skip(k));
                },
                None => {},
            }
        },
        (FnArg::Typed { ty: t1, .. }, FnArg::Typed { ty: t2, .. }) => {
            lemma_renamed_type(t1, t2, names);
        },
        _ => {},
    }
}

proof fn lemma_run_args_lens(st: LtState, rg: ReceiverGeneration, target: SigComponent, args: Seq<FnArg>)
    ensures
        run_args(st, rg, target, args).1.len() == args.len(),
        forall|i: int| 0 <= i < args.len() ==> (#[trigger] run_args(st, rg, target, args).1[i]).len() == arg_slots(args[i]).len(),
    decreases args.len(),
{
    if args.len() > 0 {
        let init = args.drop_last();
        lemma_run_args_lens(st, rg, target, init);
        let r = run_args(st, rg, target, init);
        lemma_run_slots_len(r.0, component_of((args.len() - 1) as nat, rg), target, arg_slots(args.last()));
        assert forall|i: int| 0 <= i < args.len() implies (#[trigger] run_args(st, rg, target, args).1[i]).len() == arg_slots(args[i]).len() by {
            if i < init.len() {
                assert(init[i] == args[i]);
            }
        }
    }
}

/// Makes every lifetime of the signature explicit, taking the first parameter as the receiver.
pub fn convert_sig(sig: Signature) -> (r: EntraitSignature)
    ensures
        args_view(r.sig.inputs@) == explicit_inputs(sig),
        crate::render::opt_type_view(r.sig.output) == explicit_output(sig),
        ets_view(r.et_lifetimes@) == explicit_lifetimes(sig),
        r.sig.prefix == sig.prefix,
        r.sig.ident == sig.ident,
        r.sig.span == sig.span,
        r.sig.generics == sig.generics,
{
    let ghost s0 = sig;
    let mut es = EntraitSignature::new(sig);
    de_elide_lifetimes(&mut es, ReceiverGeneration::Rewrite);
    proof {
        let r = de_elided(s0.inputs@, output_slots(s0.output), ReceiverGeneration::Rewrite);
        let target = output_target(elided_list(s0.inputs@, ReceiverGeneration::Rewrite));
        lemma_run_args_lens(start_state(), ReceiverGeneration::Rewrite, target, s0.inputs@);
        assert forall|i: int| 0 <= i < s0.inputs@.len() implies #[trigger] args_view(es.sig.inputs@)[i] == explicit_inputs(s0)[i] by {
            lemma_renamed_arg(s0.inputs@[i], es.sig.inputs@[i], r.1[i]);
        }
        assert(args_view(es.sig.inputs@) =~= explicit_inputs(s0));
        match s0.output {
            Some(t) => {
                lemma_renamed_type(t, es.sig.output->0, r.2);
            },
            None => {},
        }
        assert(ets_view(es.et_lifetimes@) =~= explicit_lifetimes(s0));
    }
    es
}

/// The names of the gathered lifetimes.
pub open spec fn fut_lifetimes(ets: Seq<EtV>) -> Seq<Seq<char>> {
    ets.map_values(|e: EtV| e.lifetime)
}

/// The names of the gathered lifetimes that come from the receiver.
pub open spec fn self_lifetimes(ets: Seq<EtV>) -> Seq<Seq<char>>
    decreases ets.len(),
{
    if ets.len() == 0 {
        Seq::empty()
    } else if ets.last().source == SigComponent::Receiver {
        self_lifetimes(ets.drop_last()).push(ets.last().lifetime)
    } else {
        self_lifetimes(ets.drop_last())
    }
}

/// A lifetime parameter for each gathered lifetime that the macro made up.
pub open spec fn made_up_params(ets: Seq<EtV>, span: Span) -> Seq<GenericParamV>
    decreases ets.len(),
{
    if ets.len() == 0 {
        Seq::empty()
    } else if !ets.last().user_provided {
        made_up_params(ets.drop_last(), span).push(lifetime_param_v(ets.last().lifetime, span))
    } else {
        made_up_params(ets.drop_last(), span)
    }
}

pub open spec fn lifetime_param_v(name: Seq<char>, span: Span) -> GenericParamV {
    GenericParamV {
        kind: GenericParamKind::Lifetime,
        ident: IdentV { name, span },
        bounds: Seq::empty(),
        tokens: seq![lifetime_v(name, span)],
    }
}

pub open spec fn lifetime_items(names: Seq<Seq<char>>, span: Span) -> Seq<Seq<TokV>> {
    names.map_values(|n: Seq<char>| seq![lifetime_v(n, span)])
}

/// `Fut<'a, 'b>`.
pub open spec fn fut_name_toks(ets: Seq<EtV>, span: Span) -> Seq<TokV> {
    seq![ident_v("Fut"@, span), punct_v('<', Spacing::Alone, span)]
    + join(lifetime_items(fut_lifetimes(ets), span), seq![punct_v(',', Spacing::Alone, span)])
    + seq![punct_v('>', Spacing::Alone, span)]
}

/// `::core::future::Future<Output = T>`.
pub open spec fn future_toks(output: Seq<TokV>, span: Span) -> Seq<TokV> {
    path_sep_v(span) + seq![ident_v("core"@, span)] + path_sep_v(span) + seq![ident_v("future"@, span)]
    + path_sep_v(span) + seq![ident_v("Future"@, span), punct_v('<', Spacing::Alone, span), ident_v("Output"@, span), punct_v('=', Spacing::Alone, span)]
    + output + seq![punct_v('>', Spacing::Alone, span)]
}

/// `where Self: 'a + 'b;`, over the lifetimes of the receiver.
pub open spec fn fut_where_toks(ets: Seq<EtV>, span: Span) -> Seq<TokV> {
    seq![ident_v("where"@, span), ident_v("Self"@, span), punct_v(':', Spacing::Alone, span)]
    + join(lifetime_items(self_lifetimes(ets), span), seq![punct_v('+', Spacing::Alone, span)])
    + seq![punct_v(';', Spacing::Alone, span)]
}

/// What the future yields: the output type with its lifetimes made explicit, or `()`.
pub open spec fn fut_output_toks(sig: Signature, span: Span) -> Seq<TokV> {
    match explicit_output(sig) {
        Some(t) => type_toks(t),
        None => seq![open_v(Delimiter::Parenthesis, span), close_v(Delimiter::Parenthesis, span)],
    }
}

/// The declaration of the future in the trait:
/// `type Fut<'a>: ::core::future::Future<Output = T> + Send where Self: 'a;`.
pub open spec fn fut_decl_toks(sig: Signature, span: Span) -> Seq<TokV> {
    let ets = explicit_lifetimes(sig);
    seq![ident_v("type"@, span)] + fut_name_toks(ets, span) + seq![punct_v(':', Spacing::Alone, span)]
    + future_toks(fut_output_toks(sig, span), span)
    + seq![punct_v('+', Spacing::Alone, span), ident_v("Send"@, span)]
    + fut_where_toks(ets, span)
}

/// The definition of the future in the impl:
/// `type Fut<'a> = impl ::core::future::Future<Output = T> where Self: 'a;`.
pub open spec fn fut_impl_toks(sig: Signature, span: Span) -> Seq<TokV> {
    let ets = explicit_lifetimes(sig);
    seq![ident_v("type"@, span)] + fut_name_toks(ets, span)
    + seq![punct_v('=', Spacing::Alone, span), ident_v("impl"@, span)]
    + future_toks(fut_output_toks(sig, span), span)
    + fut_where_toks(ets, span)
}

/// The method without `async`: lifetimes explicit, the made-up ones added to its generic
/// parameters, and `-> Self::Fut<'a>` as its output.
pub open spec fn plain_sig_toks(sig: Signature, span: Span) -> Seq<TokV> {
    let s = sig@;
    let ets = explicit_lifetimes(sig);
    s.prefix
    + seq![ident_v("fn"@, s.span), ident_v(s.ident, s.span)]
    + params_toks(s.params + made_up_params(ets, span), s.span)
    + seq![open_v(Delimiter::Parenthesis, s.span)]
    + args_toks(explicit_inputs(sig), s.span)
    + seq![close_v(Delimiter::Parenthesis, s.span)]
    + seq![punct_v('-', Spacing::Joint, span), punct_v('>', Spacing::Alone, span), ident_v("Self"@, span)]
    + path_sep_v(span)
    + fut_name_toks(ets, span)
    + opt_where_toks(s.where_clause, s.span)
}

fn push_lifetimes(out: &mut Vec<Tok>, ets: &Vec<EntraitLifetime>, receiver_only: bool, sep: char, span: Span)
    ensures
        tv(final(out)@) == tv(old(out)@) + join(
            lifetime_items(if receiver_only { self_lifetimes(ets_view(ets@)) } else { fut_lifetimes(ets_view(ets@)) }, span),
            seq![punct_v(sep, Spacing::Alone, span)],
        ),
{
    let ghost ev = ets_view(ets@);
    let ghost names = if receiver_only { self_lifetimes(ev) } else { fut_lifetimes(ev) };
    let mut items: Vec<Vec<Tok>> = Vec::new();
    let mut i: usize = 0;
    while i < ets.len()
        invariant
            i <= ets@.len(),
            ev == ets_view(ets@),
            items_view(items@) == lifetime_items(
                if receiver_only { self_lifetimes(ev.take(i as int)) } else { fut_lifetimes(ev.take(i as int)) }, span),
        decreases ets@.len() - i,
    {
        let ghost before = items_view(items@);
        assert(ev.take(i + 1).drop_last() =~= ev.take(i as int));
        let e = &ets[i];
        assert(ev.take(i + 1).last() == e@);
        if !receiver_only || e.source == SigComponent::Receiver {
            let mut one: Vec<Tok> = Vec::new();
            push_tok(&mut one, lifetime(&e.lifetime, span));
            assert(tv(one@) =~= seq![lifetime_v(e.lifetime@, span)]);
            items.push(one);
            assert(items_view(items@) =~= before.push(seq![lifetime_v(e.lifetime@, span)]));
        }
        proof {
            let t = ev.take(i + 1);
            let nm = if receiver_only { self_lifetimes(t) } else { fut_lifetimes(t) };
            let pm = if receiver_only { self_lifetimes(ev.take(i as int)) } else { fut_lifetimes(ev.take(i as int)) };
            if !receiver_only {
                assert(fut_lifetimes(t) =~= fut_lifetimes(ev.take(i as int)).push(e@.lifetime));
            }
            assert(items_view(items@) =~= lifetime_items(nm, span));
        }
        i = i + 1;
    }
    assert(ev.take(ets@.len() as int) =~= ev);
    push_joined(out, &items, punct_vec(sep, span));
}

fn push_fut_name(out: &mut Vec<Tok>, ets: &Vec<EntraitLifetime>, span: Span)
    ensures
        tv(final(out)@) == tv(old(out)@) + fut_name_toks(ets_view(ets@), span),
{
    let ghost o = tv(out@);
    proof { reveal_strlit("Fut"); }
    push_ident(out, "Fut", span);
    push_punct(out, '<', span);
    push_lifetimes(out, ets, false, ',', span);
    push_punct(out, '>', span);
    assert(tv(out@) =~= o + fut_name_toks(ets_view(ets@), span));
}

fn push_future(out: &mut Vec<Tok>, sig: &EntraitSignature, ghost_sig: Ghost<Signature>, span: Span)
    requires
        opt_type_view(sig.sig.output) == explicit_output(ghost_sig@),
    ensures
        tv(final(out)@) == tv(old(out)@) + future_toks(fut_output_toks(ghost_sig@, span), span),
{
    let ghost o = tv(out@);
    proof {
        reveal_strlit("core");
        reveal_strlit("future");
        reveal_strlit("Future");
        reveal_strlit("Output");
    }
    push_path_sep(out, span);
    push_ident(out, "core", span);
    push_path_sep(out, span);
    push_ident(out, "future", span);
    push_path_sep(out, span);
    push_ident(out, "Future", span);
    push_punct(out, '<', span);
    push_ident(out, "Output", span);
    push_punct(out, '=', span);
    let ghost a = tv(out@);
    match &sig.sig.output {
        Some(t) => push_type(out, t),
        None => {
            push_open(out, Delimiter::Parenthesis, span);
            push_close(out, Delimiter::Parenthesis, span);
        },
    }
    assert(tv(out@) =~= a + fut_output_toks(ghost_sig@, span));
    push_punct(out, '>', span);
    assert(tv(out@) =~= o + future_toks(fut_output_toks(ghost_sig@, span), span));
}

fn push_fut_where(out: &mut Vec<Tok>, ets: &Vec<EntraitLifetime>, span: Span)
    ensures
        tv(final(out)@) == tv(old(out)@) + fut_where_toks(ets_view(ets@), span),
{
    let ghost o = tv(out@);
    proof {
        reveal_strlit("where");
        reveal_strlit("Self");
    }
    push_ident(out, "where", span);
    push_ident(out, "Self", span);
    push_punct(out, ':', span);
    push_lifetimes(out, ets, true, '+', span);
    push_punct(out, ';', span);
    assert(tv(out@) =~= o + fut_where_toks(ets_view(ets@), span));
}

/// Writes the future's declaration (`in_trait`) or its definition.
fn push_fut_item(out: &mut Vec<Tok>, sig: &EntraitSignature, ghost_sig: Ghost<Signature>, in_trait: bool, span: Span)
    requires
        opt_type_view(sig.sig.output) == explicit_output(ghost_sig@),
        ets_view(sig.et_lifetimes@) == explicit_lifetimes(ghost_sig@),
    ensures
        tv(final(out)@) == tv(old(out)@) + if in_trait { fut_decl_toks(ghost_sig@, span) } else { fut_impl_toks(ghost_sig@, span) },
{
    let ghost o = tv(out@);
    proof {
        reveal_strlit("type");
        reveal_strlit("Send");
        reveal_strlit("impl");
    }
    push_ident(out, "type", span);
    push_fut_name(out, &sig.et_lifetimes, span);
    if in_trait {
        push_punct(out, ':', span);
    } else {
        push_punct(out, '=', span);
        push_ident(out, "impl", span);
    }
    push_future(out, sig, ghost_sig, span);
    if in_trait {
        push_punct(out, '+', span);
        push_ident(out, "Send", span);
    }
    push_fut_where(out, &sig.et_lifetimes, span);
    assert(tv(out@) =~= o + if in_trait { fut_decl_toks(ghost_sig@, span) } else { fut_impl_toks(ghost_sig@, span) });
}

fn made_up_lifetime_params(ets: &Vec<EntraitLifetime>, span: Span) -> (r: Vec<GenericParam>)
    ensures
        params_view(r@) == made_up_params(ets_view(ets@), span),
{
    let ghost ev = ets_view(ets@);
    let mut r: Vec<GenericParam> = Vec::new();
    let mut i: usize = 0;
    while i < ets.len()
        invariant
            i <= ets@.len(),
            ev == ets_view(ets@),
            params_view(r@) == made_up_params(ev.take(i as int), span),
        decreases ets@.len() - i,
    {
        let ghost before = params_view(r@);
        assert(ev.take(i + 1).drop_last() =~= ev.take(i as int));
        let e = &ets[i];
        assert(ev.take(i + 1).last() == e@);
        if !e.user_provided.0 {
            let mut toks: Vec<Tok> = Vec::new();
            push_tok(&mut toks, lifetime(&e.lifetime, span));
            assert(tv(toks@) =~= seq![lifetime_v(e.lifetime@, span)]);
            let p = GenericParam {
                kind: GenericParamKind::Lifetime,
                ident: Ident { name: copy_string(&e.lifetime), span },
                bounds: Vec::new(),
                tokens: toks,
            };
            assert(crate::model::bounds_view(p.bounds@) =~= Seq::<Seq<TokV>>::empty());
            assert(p@ == lifetime_param_v(e.lifetime@, span));
            r.push(p);
            assert(params_view(r@) =~= before.push(p@));
        } else {
            assert(params_view(r@) =~= before);
        }
        i = i + 1;
    }
    assert(ev.take(ets@.len() as int) =~= ev);
    r
}

/// Writes the method without `async`, returning the future.
fn push_plain_sig(out: &mut Vec<Tok>, sig: &EntraitSignature, ghost_sig: Ghost<Signature>, span: Span)
    requires
        args_view(sig.sig.inputs@) == explicit_inputs(ghost_sig@),
        ets_view(sig.et_lifetimes@) == explicit_lifetimes(ghost_sig@),
        sig.sig.prefix == ghost_sig@.prefix,
        sig.sig.ident == ghost_sig@.ident,
        sig.sig.span == ghost_sig@.span,
        sig.sig.generics == ghost_sig@.generics,
    ensures
        tv(final(out)@) == tv(old(out)@) + plain_sig_toks(ghost_sig@, span),
{
    let ghost o = tv(out@);
    proof {
        reveal_strlit("fn");
        reveal_strlit("Self");
    }
    let s = &sig.sig;
    extend(out, &s.prefix);
    push_ident(out, "fn", s.span);
    push_tok(out, ident_of(&s.ident, s.span));
    let mut params = dup_params(&s.generics.params);
    let mut extra = made_up_lifetime_params(&sig.et_lifetimes, span);
    let ghost pv = params_view(params@);
    let ghost ev = params_view(extra@);
    params.append(&mut extra);
    assert(params_view(params@) =~= pv + ev);
    push_params(out, &params, s.span);
    push_open(out, Delimiter::Parenthesis, s.span);
    push_args(out, &s.inputs, s.span);
    push_close(out, Delimiter::Parenthesis, s.span);
    push_tok(out, crate::tokens::punct('-', Spacing::Joint, span));
    push_punct(out, '>', span);
    push_ident(out, "Self", span);
    push_path_sep(out, span);
    push_fut_name(out, &sig.et_lifetimes, span);
    push_opt_where(out, &s.generics.where_clause, s.span);
    assert(tv(out@) =~= o + plain_sig_toks(ghost_sig@, span));
}

/// An item of the trait or impl block that `static_async_trait` is applied to.
pub enum StaticItem {
    /// A method: its tokens as written, its outer attributes, its visibility (with
    /// `default`, if written), its signature, and the statements of its body (empty for a
    /// method of a trait without a default body).
    Fn { tokens: Vec<Tok>, attrs: Vec<Tok>, vis: Vec<Tok>, sig: Signature, body: Vec<Tok> },
    /// Any other item, as written.
    Other { tokens: Vec<Tok> },
}

/// The item that `static_async_trait` is applied to.
pub enum StaticAsyncInput {
    /// A trait: everything up to its braces, the span of its name, and its items.
    Trait { header: Vec<Tok>, ident_span: Span, items: Vec<StaticItem> },
    /// An impl block: everything up to its braces, the span of `impl`, whether it implements
    /// a trait, and its items.
    Impl { header: Vec<Tok>, impl_span: Span, trait_impl: bool, items: Vec<StaticItem> },
    /// Any other item.
    Other { span: Span },
}

/// Whether the item is an `async fn` to be rewritten.
pub open spec fn rewritten(it: StaticItem, convert: bool) -> bool {
    convert && (it matches StaticItem::Fn { sig, .. } && sig.asyncness)
}

/// What an item becomes. In a trait, an `async fn` becomes the declaration of its future and
/// the method declaration returning it (its attributes and default body dropped); in a trait
/// impl, the definition of its future and the method, whose body becomes `async move { .. }`.
/// Every other item stays as written.
pub open spec fn item_toks(it: StaticItem, in_trait: bool, convert: bool, span: Span, gen_span: Span) -> Seq<TokV> {
    match it {
        StaticItem::Fn { tokens, attrs, vis, sig, body } => if convert && sig.asyncness {
            if in_trait {
                fut_decl_toks(sig, span) + plain_sig_toks(sig, span) + seq![punct_v(';', Spacing::Alone, gen_span)]
            } else {
                fut_impl_toks(sig, span) + tv(attrs@) + tv(vis@) + plain_sig_toks(sig, span)
                + seq![open_v(Delimiter::Brace, gen_span), ident_v("async"@, gen_span), ident_v("move"@, gen_span), open_v(Delimiter::Brace, gen_span)]
                + tv(body@)
                + seq![close_v(Delimiter::Brace, gen_span), close_v(Delimiter::Brace, gen_span)]
            }
        } else {
            tv(tokens@)
        },
        StaticItem::Other { tokens } => tv(tokens@),
    }
}

pub open spec fn items_toks(items: Seq<StaticItem>, in_trait: bool, convert: bool, span: Span, gen_span: Span) -> Seq<TokV>
    decreases items.len(),
{
    if items.len() == 0 {
        Seq::empty()
    } else {
        items_toks(items.drop_last(), in_trait, convert, span, gen_span) + item_toks(items.last(), in_trait, convert, span, gen_span)
    }
}

/// Every `async fn` to be rewritten has a first parameter to take as its receiver.
pub open spec fn items_fit(items: Seq<StaticItem>, convert: bool) -> bool {
    forall|i: int| 0 <= i < items.len() && #[trigger] rewritten(items[i], convert) ==> items[i]->Fn_sig.inputs@.len() > 0
}

pub open spec fn static_async_fits(input: StaticAsyncInput) -> bool {
    match input {
        StaticAsyncInput::Trait { items, .. } => items_fit(items@, true),
        StaticAsyncInput::Impl { items, trait_impl, .. } => items_fit(items@, trait_impl),
        StaticAsyncInput::Other { .. } => true,
    }
}

pub open spec fn not_static_async_message() -> Seq<char> {
    "Cannot make this static-async"@
}

/// The output of `static_async_trait`: the trait, or the impl block, with its braces and its
/// items rewritten; an impl block that implements no trait keeps its items as written.
pub open spec fn spec_static_async(input: StaticAsyncInput, gen_span: Span) -> Result<Seq<TokV>, ErrV> {
    match input {
        StaticAsyncInput::Trait { header, ident_span, items } => Ok(
            tv(header@) + seq![open_v(Delimiter::Brace, gen_span)] + items_toks(items@, true, true, ident_span, gen_span)
            + seq![close_v(Delimiter::Brace, gen_span)]
        ),
        StaticAsyncInput::Impl { header, impl_span, trait_impl, items } => Ok(
            tv(header@) + seq![open_v(Delimiter::Brace, gen_span)] + items_toks(items@, false, trait_impl, impl_span, gen_span)
            + seq![close_v(Delimiter::Brace, gen_span)]
        ),
        StaticAsyncInput::Other { span } => Err(ErrV { span, message: not_static_async_message() }),
    }
}

fn push_item(out: &mut Vec<Tok>, it: StaticItem, in_trait: bool, convert: bool, span: Span, gen_span: Span)
    requires
        rewritten(it, convert) ==> it->Fn_sig.inputs@.len() > 0,
    ensures
        tv(final(out)@) == tv(old(out)@) + item_toks(it, in_trait, convert, span, gen_span),
{
    let ghost o = tv(out@);
    let ghost it0 = it;
    match it {
        StaticItem::Fn { tokens, attrs, vis, sig, body } => {
            if convert && sig.asyncness {
                let ghost g = sig;
                let es = convert_sig(sig);
                push_fut_item(out, &es, Ghost(g), in_trait, span);
                if in_trait {
                    push_plain_sig(out, &es, Ghost(g), span);
                    push_punct(out, ';', gen_span);
                } else {
                    extend(out, &attrs);
                    extend(out, &vis);
                    push_plain_sig(out, &es, Ghost(g), span);
                    proof {
                        reveal_strlit("async");
                        reveal_strlit("move");
                    }
                    push_open(out, Delimiter::Brace, gen_span);
                    push_ident(out, "async", gen_span);
                    push_ident(out, "move", gen_span);
                    push_open(out, Delimiter::Brace, gen_span);
                    extend(out, &body);
                    push_close(out, Delimiter::Brace, gen_span);
                    push_close(out, Delimiter::Brace, gen_span);
                }
                assert(tv(out@) =~= o + item_toks(it0, in_trait, convert, span, gen_span));
            } else {
                extend(out, &tokens);
            }
        },
        StaticItem::Other { tokens } => {
            extend(out, &tokens);
        },
    }
}

fn push_items(out: &mut Vec<Tok>, items: Vec<StaticItem>, in_trait: bool, convert: bool, span: Span, gen_span: Span)
    requires
        items_fit(items@, convert),
    ensures
        tv(final(out)@) == tv(old(out)@) + items_toks(items@, in_trait, convert, span, gen_span),
{
    let ghost o = tv(out@);
    let ghost all = items@;
    let n = items.len();
    let mut rest = items;
    let mut i: usize = 0;
    while i < n
        invariant
            n == all.len(),
            i <= n,
            items_fit(all, convert),
            rest@ == all.skip(i as int),
            tv(out@) == o + items_toks(all.take(i as int), in_trait, convert, span, gen_span),
        decreases n - i,
    {
        let it = rest.remove(0);
        assert(it == all[i as int]);
        assert(rewritten(all[i as int], convert) ==> all[i as int]->Fn_sig.inputs@.len() > 0);
        assert(all.take(i + 1).drop_last() =~= all.take(i as int));
        push_item(out, it, in_trait, convert, span, gen_span);
        assert(rest@ =~= all.skip(i + 1));
        i = i + 1;
    }
    assert(all.take(n as int) =~= all);
}

/// Whether every `async fn` that `static_async_trait` rewrites has a parameter to take as its
/// receiver.
pub fn static_async_accepts(input: &StaticAsyncInput) -> (r: bool)
    ensures
        r == static_async_fits(*input),
{
    let (items, convert) = match input {
        StaticAsyncInput::Trait { items, .. } => (items, true),
        StaticAsyncInput::Impl { items, trait_impl, .. } => (items, *trait_impl),
        StaticAsyncInput::Other { .. } => return true,
    };
    assert(static_async_fits(*input) == items_fit(items@, convert));
    let mut i: usize = 0;
    while i < items.len()
        invariant
            i <= items@.len(),
            static_async_fits(*input) == items_fit(items@, convert),
            forall|j: int| 0 <= j < i && #[trigger] rewritten(items@[j], convert) ==> items@[j]->Fn_sig.inputs@.len() > 0,
        decreases items@.len() - i,
    {
        match &items[i] {
            StaticItem::Fn { sig, .. } => {
                if convert && sig.asyncness && sig.inputs.len() == 0 {
                    assert(rewritten(items@[i as int], convert));
                    return false;
                }
            },
            StaticItem::Other { .. } => {},
        }
        i = i + 1;
    }
    true
}

fn process_trait(header: Vec<Tok>, ident_span: Span, items: Vec<StaticItem>, gen_span: Span) -> (r: Vec<Tok>)
    requires
        items_fit(items@, true),
    ensures
        tv(r@) == tv(header@) + seq![open_v(Delimiter::Brace, gen_span)] + items_toks(items@, true, true, ident_span, gen_span)
            + seq![close_v(Delimiter::Brace, gen_span)],
{
    let mut out = header;
    push_open(&mut out, Delimiter::Brace, gen_span);
    push_items(&mut out, items, true, true, ident_span, gen_span);
    push_close(&mut out, Delimiter::Brace, gen_span);
    out
}

fn process_impl(header: Vec<Tok>, impl_span: Span, trait_impl: bool, items: Vec<StaticItem>, gen_span: Span) -> (r: Vec<Tok>)
    requires
        items_fit(items@, trait_impl),
    ensures
        tv(r@) == tv(header@) + seq![open_v(Delimiter::Brace, gen_span)] + items_toks(items@, false, trait_impl, impl_span, gen_span)
            + seq![close_v(Delimiter::Brace, gen_span)],
{
    let mut out = header;
    push_open(&mut out, Delimiter::Brace, gen_span);
    push_items(&mut out, items, false, trait_impl, impl_span, gen_span);
    push_close(&mut out, Delimiter::Brace, gen_span);
    out
}

/// `static_async_trait`: rewrites each `async fn` of a trait, or of a trait impl, into a
/// method returning an associated future type.
pub fn output_tokens(input: StaticAsyncInput, gen_span: Span) -> (r: Result<Vec<Tok>, MacroError>)
    requires
        static_async_fits(input),
    ensures
        match spec_static_async(input, gen_span) {
            Ok(t) => r matches Ok(x) && tv(x@) == t,
            Err(e) => r matches Err(x) && x@ == e,
        },
{
    match input {
        StaticAsyncInput::Trait { header, ident_span, items } => Ok(process_trait(header, ident_span, items, gen_span)),
        StaticAsyncInput::Impl { header, impl_span, trait_impl, items } => Ok(process_impl(header, impl_span, trait_impl, items, gen_span)),
        StaticAsyncInput::Other { span } => {
            proof { reveal_strlit("Cannot make this static-async"); }
            Err(MacroError::new(span, "Cannot make this static-async"))
        },
    }
}

/// The items as written.
pub open spec fn items_as_written(items: Seq<StaticItem>) -> Seq<TokV>
    decreases items.len(),
{
    if items.len() == 0 {
        Seq::empty()
    } else {
        items_as_written(items.drop_last()) + match items.last() {
            StaticItem::Fn { tokens, .. } => tv(tokens@),
            StaticItem::Other { tokens } => tv(tokens@),
        }
    }
}

/// No item is an `async fn` that gets rewritten.
pub open spec fn nothing_rewritten(items: Seq<StaticItem>, convert: bool) -> bool {
    forall|i: int| 0 <= i < items.len() ==> !#[trigger] rewritten(items[i], convert)
}

proof fn lemma_items_unchanged(items: Seq<StaticItem>, in_trait: bool, convert: bool, span: Span, gen_span: Span)
    requires
        nothing_rewritten(items, convert),
    ensures
        items_toks(items, in_trait, convert, span, gen_span) == items_as_written(items),
    decreases items.len(),
{
    if items.len() > 0 {
        let init = items.drop_last();
        assert forall|i: int| 0 <= i < init.len() implies !#[trigger] rewritten(init[i], convert) by {
            assert(init[i] == items[i]);
        }
        lemma_items_unchanged(init, in_trait, convert, span, gen_span);
        assert(!rewritten(items[items.len() - 1], convert));
    }
}

/// `static_async_trait` writes a trait or an impl block back as it was when none of its
/// methods is rewritten: when it has no `async fn`, or when the impl block implements no trait.
pub proof fn lemma_static_async_keeps_items_without_async(input: StaticAsyncInput, gen_span: Span)
    requires
        match input {
            StaticAsyncInput::Trait { items, .. } => nothing_rewritten(items@, true),
            StaticAsyncInput::Impl { items, trait_impl, .. } => nothing_rewritten(items@, trait_impl),
            StaticAsyncInput::Other { .. } => false,
        },
    ensures
        match input {
            StaticAsyncInput::Trait { header, items, .. } => spec_static_async(input, gen_span) == Ok::<Seq<TokV>, ErrV>(
                tv(header@) + seq![open_v(Delimiter::Brace, gen_span)] + items_as_written(items@) + seq![close_v(Delimiter::Brace, gen_span)]),
            StaticAsyncInput::Impl { header, items, .. } => spec_static_async(input, gen_span) == Ok::<Seq<TokV>, ErrV>(
                tv(header@) + seq![open_v(Delimiter::Brace, gen_span)] + items_as_written(items@) + seq![close_v(Delimiter::Brace, gen_span)]),
            StaticAsyncInput::Other { .. } => true,
        },
{
    match input {
        StaticAsyncInput::Trait { ident_span, items, .. } => {
            lemma_items_unchanged(items@, true, true, ident_span, gen_span);
        },
        StaticAsyncInput::Impl { impl_span, trait_impl, items, .. } => {
            lemma_items_unchanged(items@, false, trait_impl, impl_span, gen_span);
        },
        StaticAsyncInput::Other { .. } => {},
    }
}

} // verus!
