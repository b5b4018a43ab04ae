//! Writes the definition of a generated trait.

use vstd::prelude::*;
use proc_macro2::Span;
use crate::analyze_generics::{TraitGenerics, TraitGenericsV};
use crate::attributes::{
    Attr, EntraitForTraitParams, ExportGatedAttr, IsEmpty, MockallAutomockParams, UnimockAttrParams, WriteTokens,
};
use crate::error::MacroError;
use crate::generics::{TraitIndirection, params_gen_toks, trait_where_toks};
use crate::idents::CrateIdents;
use crate::model::{Ident, Signature, SigV, SlotV, TypeModel, TypeShape, TypeV, ShapeV, Visibility, params_view, preds_view, slots_view, dup_slots};
use crate::opt::{Opts, SpanOpt, flag, or_default};
use crate::render::{sig_toks, push_sig, type_toks};
use crate::signature::EntraitSignature;
use crate::sub_attributes::{SubAttribute, contains_async_trait, has_async_trait};
use crate::tokens::{
    Delimiter, Spacing, Tok, TokV, tv, ident_v, punct_v, open_v, close_v, path_sep_v, extend, push_tok, push_ident,
    push_punct, push_path_sep, push_open, push_close, ident_of, lemma_add_assoc, lemma_push_add,
};
use crate::trait_fn::{FnInputMode, TraitDependencyMode, TraitFn, TraitFnV, fns_view, ModeV, mode_view, InputModeV, input_mode_view};
use crate::attributes::{attr_toks, export_gated_toks, unimock_toks, entrait_for_trait_toks, automock_toks};
use crate::model::IdentV;
use crate::model::dup_toks;

verus! {

/// The supertraits of a generated trait: `: A + B`.
pub enum Supertraits {
    Empty,
    Bounds { colon_span: Span, bounds: Vec<Tok> },
}

pub open spec fn supertraits_toks(s: Supertraits) -> Seq<TokV> {
    match s {
        Supertraits::Empty => Seq::empty(),
        Supertraits::Bounds { colon_span, bounds } => seq![punct_v(':', Spacing::Alone, colon_span)] + tv(bounds@),
    }
}

pub fn push_supertraits(out: &mut Vec<Tok>, s: &Supertraits)
    ensures
        tv(final(out)@) == tv(old(out)@) + supertraits_toks(*s),
{
    let ghost base = tv(out@);
    match s {
        Supertraits::Empty => {
            assert(tv(out@) =~= base + supertraits_toks(*s));
        },
        Supertraits::Bounds { colon_span, bounds } => {
            push_punct(out, ':', *colon_span);
            extend(out, bounds);
            assert(tv(out@) =~= base + supertraits_toks(*s));
        },
    }
}

/// The visibility of a trait defined inside a module or next to an impl block: a private one
/// becomes `pub(super)`, since the trait is seen from outside the module.
pub open spec fn trait_visibility_toks(vis: Seq<TokV>, mode: InputModeV, span: Span) -> Seq<TokV> {
    if (mode is Module || mode is ImplBlock) && vis.len() == 0 {
        seq![ident_v("pub"@, span), open_v(Delimiter::Parenthesis, span), ident_v("super"@, span), close_v(Delimiter::Parenthesis, span)]
    } else {
        vis
    }
}

pub fn push_trait_visibility(out: &mut Vec<Tok>, vis: &Visibility, mode: &FnInputMode, span: Span)
    ensures
        tv(final(out)@) == tv(old(out)@) + trait_visibility_toks(tv(vis.tokens@), input_mode_view(*mode), span),
{
    let ghost base = tv(out@);
    let nested = match mode {
        FnInputMode::Module(_) | FnInputMode::ImplBlock(_) => true,
        _ => false,
    };
    if nested && vis.tokens.len() == 0 {
        proof {
            reveal_strlit("pub");
            reveal_strlit("super");
        }
        push_ident(out, "pub", span);
        push_open(out, Delimiter::Parenthesis, span);
        push_ident(out, "super", span);
        push_close(out, Delimiter::Parenthesis, span);
        assert(tv(out@) =~= base + trait_visibility_toks(tv(vis.tokens@), input_mode_view(*mode), span));
    } else {
        extend(out, &vis.tokens);
    }
}

/// `impl ::core::future::Future<Output = T>`, with `T` the output or `()`, followed by
/// `+ ::core::marker::Send` when `send`.
pub open spec fn future_type(output: Option<TypeV>, send: bool, span: Span) -> TypeV {
    let (inner, slots): (Seq<TokV>, Seq<SlotV>) = match output {
        Some(t) => (t.tokens, t.slots),
        None => (seq![open_v(Delimiter::Parenthesis, span), close_v(Delimiter::Parenthesis, span)], Seq::empty()),
    };
    TypeV {
        shape: ShapeV::Other,
        tokens: seq![ident_v("impl"@, span)] + path_sep_v(span) + seq![ident_v("core"@, span)] + path_sep_v(span)
            + seq![ident_v("future"@, span)] + path_sep_v(span)
            + seq![ident_v("Future"@, span), punct_v('<', Spacing::Alone, span), ident_v("Output"@, span), punct_v('=', Spacing::Alone, span)]
            + inner
            + seq![punct_v('>', Spacing::Alone, span)]
            + (if send {
                seq![punct_v('+', Spacing::Alone, span)]
                + path_sep_v(span) + seq![ident_v("core"@, span)] + path_sep_v(span) + seq![ident_v("marker"@, span)] + path_sep_v(span)
                + seq![ident_v("Send"@, span)]
            } else {
                Seq::empty()
            }),
        slots,
        span,
    }
}

pub open spec fn output_span(s: SigV) -> Span {
    match s.output {
        Some(t) => t.span,
        None => s.span,
    }
}

/// The method signature in the trait: an `async fn` becomes a function returning a future,
/// `Send` when `send`, unless the trait has an async-trait attribute.
pub open spec fn trait_fn_sig(s: SigV, async_trait: bool, send: bool) -> SigV {
    if s.asyncness && !async_trait {
        SigV { asyncness: false, output: Some(future_type(s.output, send, output_span(s))), ..s }
    } else {
        s
    }
}

fn future_model(output: Option<TypeModel>, send: bool, span: Span) -> (t: TypeModel)
    ensures
        t@ == future_type(match output { Some(x) => Some(x@), None => None }, send, span),
{
    proof {
        reveal_strlit("impl");
        reveal_strlit("core");
        reveal_strlit("future");
        reveal_strlit("Future");
        reveal_strlit("Output");
        reveal_strlit("marker");
        reveal_strlit("Send");
    }
    let mut tokens: Vec<Tok> = Vec::new();
    push_ident(&mut tokens, "impl", span);
    push_path_sep(&mut tokens, span);
    push_ident(&mut tokens, "core", span);
    push_path_sep(&mut tokens, span);
    push_ident(&mut tokens, "future", span);
    push_path_sep(&mut tokens, span);
    push_ident(&mut tokens, "Future", span);
    push_punct(&mut tokens, '<', span);
    push_ident(&mut tokens, "Output", span);
    push_punct(&mut tokens, '=', span);
    let ghost head = tv(tokens@);
    let slots = match &output {
        Some(t) => {
            extend(&mut tokens, &t.tokens);
            dup_slots(&t.slots)
        },
        None => {
            push_open(&mut tokens, Delimiter::Parenthesis, span);
            push_close(&mut tokens, Delimiter::Parenthesis, span);
            Vec::new()
        },
    };
    let ghost mid = tv(tokens@);
    push_punct(&mut tokens, '>', span);
    if send {
        push_punct(&mut tokens, '+', span);
        push_path_sep(&mut tokens, span);
        push_ident(&mut tokens, "core", span);
        push_path_sep(&mut tokens, span);
        push_ident(&mut tokens, "marker", span);
        push_path_sep(&mut tokens, span);
        push_ident(&mut tokens, "Send", span);
    }
    let t = TypeModel { shape: TypeShape::Other, tokens, slots, span };
    proof {
        if output is None {
            assert(slots_view(t.slots@) =~= Seq::<SlotV>::empty());
        }
    }
    assert(tv(t.tokens@) =~= future_type(match output { Some(x) => Some(x@), None => None }, send, span).tokens);
    t
}

/// The signature of a trait method.
pub fn make_trait_fn_sig(entrait_sig: &EntraitSignature, sub_attributes: &Vec<SubAttribute>, opts: &Opts) -> (r: Signature)
    ensures
        r@ == trait_fn_sig(entrait_sig.sig@, has_async_trait(sub_attributes@), future_send_flag(*opts)),
{
    let mut sig = entrait_sig.sig.duplicate();
    if entrait_sig.sig.asyncness && !contains_async_trait(sub_attributes) {
        sig.asyncness = false;
        let mut output: Option<TypeModel> = None;
        std::mem::swap(&mut output, &mut sig.output);
        let span = match &output {
            Some(t) => t.span,
            None => sig.span,
        };
        sig.output = Some(future_model(output, opts.future_send().0, span));
    }
    sig
}

/// The attributes of the trait that come from under `entrait`: async-trait and automock.
pub open spec fn trait_level_subs(subs: Seq<SubAttribute>) -> Seq<TokV>
    decreases subs.len(),
{
    if subs.len() == 0 {
        Seq::empty()
    } else {
        trait_level_subs(subs.drop_last()) + if subs.last() is AsyncTrait || subs.last() is Automock {
            tv(subs.last().tokens()@)
        } else {
            Seq::empty()
        }
    }
}

pub fn push_trait_level_subs_pub(out: &mut Vec<Tok>, subs: &Vec<SubAttribute>)
    ensures
        tv(final(out)@) == tv(old(out)@) + trait_level_subs(subs@),
{
    push_trait_level_subs(out, subs);
}

fn push_trait_level_subs(out: &mut Vec<Tok>, subs: &Vec<SubAttribute>)
    ensures
        tv(final(out)@) == tv(old(out)@) + trait_level_subs(subs@),
{
    let ghost base = tv(out@);
    let mut i: usize = 0;
    assert(subs@.take(0) =~= Seq::<SubAttribute>::empty());
    while i < subs.len()
        invariant
            i <= subs@.len(),
            tv(out@) == base + trait_level_subs(subs@.take(i as int)),
        decreases subs@.len() - i,
    {
        let ghost t = subs@.take(i + 1);
        assert(t.drop_last() =~= subs@.take(i as int));
        assert(t.last() == subs@[i as int]);
        match &subs[i] {
            SubAttribute::AsyncTrait(_) | SubAttribute::Automock(_) => {
                subs[i].write_tokens(out);
                assert(tv(out@) =~= base + trait_level_subs(t));
            },
            _ => {
                assert(tv(out@) =~= base + trait_level_subs(t));
            },
        }
        i = i + 1;
    }
    assert(subs@.take(subs@.len() as int) =~= subs@);
}

/// Generates trait definitions.
pub struct TraitCodegen<'s> {
    pub opts: &'s Opts,
    pub crate_idents: &'s CrateIdents,
    pub trait_indirection: TraitIndirection,
    pub trait_dependency_mode: &'s TraitDependencyMode<'s>,
    pub sub_attributes: &'s Vec<SubAttribute<'s>>,
}

/// One method of the trait: its attributes, its signature and `;`.
pub open spec fn fn_def_toks(f: TraitFnV, async_trait: bool, send: bool, span: Span) -> Seq<TokV> {
    f.attrs + sig_toks(trait_fn_sig(f.sig, async_trait, send)) + seq![punct_v(';', Spacing::Alone, span)]
}

pub open spec fn fn_defs_toks(fns: Seq<TraitFnV>, async_trait: bool, send: bool, span: Span) -> Seq<TokV>
    decreases fns.len(),
{
    if fns.len() == 0 {
        Seq::empty()
    } else {
        fn_defs_toks(fns.drop_last(), async_trait, send, span) + fn_def_toks(fns.last(), async_trait, send, span)
    }
}

/// Whether the futures of generated async methods are `Send`: unless `?Send` was given.
pub open spec fn future_send_flag(opts: Opts) -> bool {
    or_default(opts.future_send, true, opts.default_span).0
}

pub open spec fn mock_api_view(opts: Opts) -> Option<IdentV> {
    match opts.mock_api {
        Some(m) => Some(m.0@),
        None => None,
    }
}

/// The unimock attribute, when unimock is on and there is something to say.
pub open spec fn unimock_attr_spec(opts: Opts, c: CrateIdents, ti: TraitIndirection, mode: InputModeV, fns: Seq<TraitFnV>, span: Span) -> Seq<TokV> {
    let o = or_default(opts.unimock, false, opts.default_span);
    if o.0 && !(ti == TraitIndirection::Plain && mock_api_view(opts) is None) {
        export_gated_toks(unimock_toks(c, ti, mock_api_view(opts), mode is SingleFn, mode is RawTrait, fns, o.1), flag(opts.export), span)
    } else {
        Seq::empty()
    }
}

/// `#[::mockall::automock]`, when mockall is on.
pub open spec fn mockall_attr_spec(opts: Opts, span: Span) -> Seq<TokV> {
    let o = or_default(opts.mockall, false, opts.default_span);
    if o.0 {
        export_gated_toks(automock_toks(o.1), flag(opts.export), span)
    } else {
        Seq::empty()
    }
}

/// `#[::entrait::entrait(unimock = false, mockall = false)]` for a concrete dependency.
pub open spec fn entrait_attr_spec(c: CrateIdents, mode: ModeV, span: Span) -> Seq<TokV> {
    match mode {
        ModeV::Concrete(_) => attr_toks(entrait_for_trait_toks(c, span), span),
        _ => Seq::empty(),
    }
}

/// The trait definition: attributes, then `vis trait Name<..>: Supertraits where .. { assoc fn ..; }`,
/// where `assoc` holds the trait's associated items as written.
pub open spec fn trait_def_spec(
    opts: Opts,
    c: CrateIdents,
    ti: TraitIndirection,
    mode: ModeV,
    sub_attrs: Seq<TokV>,
    async_trait: bool,
    vis: Seq<TokV>,
    trait_ident: IdentV,
    tg: TraitGenericsV,
    supertraits: Seq<TokV>,
    assoc: Seq<TokV>,
    fns: Seq<TraitFnV>,
    input_mode: InputModeV,
) -> Seq<TokV> {
    let span = trait_ident.span;
    unimock_attr_spec(opts, c, ti, input_mode, fns, span)
        + entrait_attr_spec(c, mode, span)
        + mockall_attr_spec(opts, span)
        + sub_attrs
        + trait_visibility_toks(vis, input_mode, span)
        + seq![ident_v("trait"@, span), ident_v(trait_ident.name, span)]
        + params_gen_toks(tg.params, None, false, false, span)
        + supertraits
        + trait_where_toks(tg.preds, span)
        + seq![open_v(Delimiter::Brace, span)]
        + assoc
        + fn_defs_toks(fns, async_trait, future_send_flag(opts), span)
        + seq![close_v(Delimiter::Brace, span)]
}

impl<'s> TraitCodegen<'s> {
    pub open spec fn trait_def_toks(
        &self,
        vis: &Visibility,
        trait_ident: &Ident,
        tg: &TraitGenerics,
        supertraits: &Supertraits,
        assoc: &Vec<Tok>,
        fns: &Vec<TraitFn>,
        mode: &FnInputMode,
    ) -> Seq<TokV> {
        trait_def_spec(
            *self.opts,
            *self.crate_idents,
            self.trait_indirection,
            mode_view(*self.trait_dependency_mode),
            trait_level_subs(self.sub_attributes@),
            has_async_trait(self.sub_attributes@),
            tv(vis.tokens@),
            trait_ident@,
            tg@,
            supertraits_toks(*supertraits),
            tv(assoc@),
            fns_view(fns@),
            input_mode_view(*mode),
        )
    }

    /// Writes the trait definition.
    pub fn gen_trait_def(
        &self,
        visibility: &Visibility,
        trait_ident: &Ident,
        trait_generics: &TraitGenerics,
        supertraits: &Supertraits,
        assoc_types: &Vec<Tok>,
        trait_fns: &Vec<TraitFn>,
        fn_input_mode: &FnInputMode,
    ) -> (r: Result<Vec<Tok>, MacroError>)
        ensures
            r matches Ok(t) && tv(t@) == self.trait_def_toks(visibility, trait_ident, trait_generics, supertraits, assoc_types, trait_fns, fn_input_mode),
    {
        let span = trait_ident.span;
        let mut out: Vec<Tok> = Vec::new();
        proof { reveal_strlit("trait"); }

        let unimock = self.opts.default_option(self.opts.unimock, false);
        if unimock.0 {
            let attr = ExportGatedAttr {
                params: UnimockAttrParams {
                    trait_ident,
                    mock_api: match &self.opts.mock_api { Some(m) => Some(m), None => None },
                    trait_indirection: self.trait_indirection,
                    crate_idents: self.crate_idents,
                    trait_fns,
                    fn_input_mode,
                    span: unimock.1,
                },
                opts: self.opts,
                span,
            };
            attr.write_tokens(&mut out);
        }
        let ghost b0 = unimock_attr_spec(*self.opts, *self.crate_idents, self.trait_indirection, input_mode_view(*fn_input_mode), fns_view(trait_fns@), span);
        assert(tv(out@) =~= b0);
        let mut part: Vec<Tok> = Vec::new();
        match self.trait_dependency_mode {
            TraitDependencyMode::Concrete(_) => {
                Attr(EntraitForTraitParams { crate_idents: self.crate_idents, span }, span).write_tokens(&mut part);
            },
            _ => {},
        }
        assert(tv(part@) =~= entrait_attr_spec(*self.crate_idents, mode_view(*self.trait_dependency_mode), span));
        extend(&mut out, &part);
        let ghost b1 = b0 + tv(part@);
        let mut part: Vec<Tok> = Vec::new();
        let mockall = self.opts.default_option(self.opts.mockall, false);
        if mockall.0 {
            ExportGatedAttr { params: MockallAutomockParams { span: mockall.1 }, opts: self.opts, span }.write_tokens(&mut part);
        }
        assert(tv(part@) =~= mockall_attr_spec(*self.opts, span));
        extend(&mut out, &part);
        proof { lemma_add_assoc(Seq::empty(), b1, tv(part@)); }
        let ghost b2 = b1 + tv(part@);
        assert(tv(out@) == b2);
        push_trait_level_subs(&mut out, self.sub_attributes);
        let ghost b3 = b2 + trait_level_subs(self.sub_attributes@);
        push_trait_visibility(&mut out, visibility, fn_input_mode, span);
        let ghost b4 = b3 + trait_visibility_toks(tv(visibility.tokens@), input_mode_view(*fn_input_mode), span);
        let mut part: Vec<Tok> = Vec::new();
        push_ident(&mut part, "trait", span);
        push_tok(&mut part, ident_of(&trait_ident.name, span));
        assert(tv(part@) =~= seq![ident_v("trait"@, span), ident_v(trait_ident.name@, span)]);
        extend(&mut out, &part);
        let ghost b5 = b4 + tv(part@);
        trait_generics.trait_params(&mut out, span);
        let ghost b6 = b5 + params_gen_toks(params_view(trait_generics.params@), None, false, false, span);
        push_supertraits(&mut out, supertraits);
        let ghost b7 = b6 + supertraits_toks(*supertraits);
        trait_generics.trait_where_clause(&mut out, span);
        let ghost b8 = b7 + trait_where_toks(preds_view(trait_generics.where_predicates@), span);
        push_open(&mut out, Delimiter::Brace, span);
        proof { lemma_push_add(Seq::empty(), b8, open_v(Delimiter::Brace, span)); }
        let ghost b9o = b8 + seq![open_v(Delimiter::Brace, span)];
        assert(tv(out@) =~= b9o);
        extend(&mut out, assoc_types);
        let ghost b9 = b9o + tv(assoc_types@);
        assert(tv(out@) =~= b9);
        let async_trait = contains_async_trait(self.sub_attributes);
        let send = self.opts.future_send().0;
        let ghost fv = fns_view(trait_fns@);
        let mut i: usize = 0;
        assert(fv.take(0) =~= Seq::<TraitFnV>::empty());
        assert(tv(out@) =~= b9 + fn_defs_toks(fv.take(0), async_trait, send, span));
        while i < trait_fns.len()
            invariant
                i <= trait_fns@.len(),
                fv == fns_view(trait_fns@),
                async_trait == has_async_trait(self.sub_attributes@),
                send == future_send_flag(*self.opts),
                tv(out@) == b9 + fn_defs_toks(fv.take(i as int), async_trait, send, span),
            decreases trait_fns@.len() - i,
        {
            let ghost t = fv.take(i + 1);
            assert(t.drop_last() =~= fv.take(i as int));
            assert(t.last() == trait_fns@[i as int]@);
            let ghost before = fn_defs_toks(fv.take(i as int), async_trait, send, span);
            let f = &trait_fns[i];
            let mut item: Vec<Tok> = Vec::new();
            extend(&mut item, &f.attrs);
            let sig = make_trait_fn_sig(&f.entrait_sig, self.sub_attributes, self.opts);
            push_sig(&mut item, &sig);
            push_punct(&mut item, ';', span);
            assert(tv(item@) =~= fn_def_toks(f@, async_trait, send, span));
            extend(&mut out, &item);
            proof { lemma_add_assoc(b9, before, tv(item@)); }
            i = i + 1;
        }
        assert(fv.take(trait_fns@.len() as int) =~= fv);
        let ghost b10 = b9 + fn_defs_toks(fv, async_trait, send, span);
        push_close(&mut out, Delimiter::Brace, span);
        proof { lemma_push_add(Seq::empty(), b10, close_v(Delimiter::Brace, span)); }
        assert(tv(out@) =~= b10 + seq![close_v(Delimiter::Brace, span)]);
        Ok(out)
    }
}


/// `#[::entrait::entrait(unimock = false, mockall = false)]`, token by token.
pub open spec fn entrait_no_mock_attr(c: CrateIdents, span: Span) -> Seq<TokV> {
    let e = ident_v(c.entrait.name@, c.entrait.span);
    seq![
        punct_v('#', Spacing::Alone, span), open_v(Delimiter::Bracket, span),
        punct_v(':', Spacing::Joint, span), punct_v(':', Spacing::Alone, span), e,
        punct_v(':', Spacing::Joint, span), punct_v(':', Spacing::Alone, span), e,
        open_v(Delimiter::Parenthesis, span),
        ident_v("unimock"@, span), punct_v('=', Spacing::Alone, span), ident_v("false"@, span),
        punct_v(',', Spacing::Alone, span),
        ident_v("mockall"@, span), punct_v('=', Spacing::Alone, span), ident_v("false"@, span),
        close_v(Delimiter::Parenthesis, span),
        close_v(Delimiter::Bracket, span)
    ]
}

/// Everything of a trait definition after its entrait attribute.
pub open spec fn trait_def_tail(
    opts: Opts,
    sub_attrs: Seq<TokV>,
    async_trait: bool,
    vis: Seq<TokV>,
    trait_ident: IdentV,
    tg: TraitGenericsV,
    supertraits: Seq<TokV>,
    assoc: Seq<TokV>,
    fns: Seq<TraitFnV>,
    input_mode: InputModeV,
) -> Seq<TokV> {
    let span = trait_ident.span;
    mockall_attr_spec(opts, span)
        + sub_attrs
        + trait_visibility_toks(vis, input_mode, span)
        + seq![ident_v("trait"@, span), ident_v(trait_ident.name, span)]
        + params_gen_toks(tg.params, None, false, false, span)
        + supertraits
        + trait_where_toks(tg.preds, span)
        + seq![open_v(Delimiter::Brace, span)]
        + assoc
        + fn_defs_toks(fns, async_trait, future_send_flag(opts), span)
        + seq![close_v(Delimiter::Brace, span)]
}

#[verifier::rlimit(40)]
pub(crate) proof fn lemma_trait_def_split(
    opts: Opts,
    c: CrateIdents,
    ti: TraitIndirection,
    mode: ModeV,
    sub_attrs: Seq<TokV>,
    async_trait: bool,
    vis: Seq<TokV>,
    trait_ident: IdentV,
    tg: TraitGenericsV,
    supertraits: Seq<TokV>,
    assoc: Seq<TokV>,
    fns: Seq<TraitFnV>,
    input_mode: InputModeV,
)
    ensures
        trait_def_spec(opts, c, ti, mode, sub_attrs, async_trait, vis, trait_ident, tg, supertraits, assoc, fns, input_mode)
            == unimock_attr_spec(opts, c, ti, input_mode, fns, trait_ident.span) + entrait_attr_spec(c, mode, trait_ident.span)
                + trait_def_tail(opts, sub_attrs, async_trait, vis, trait_ident, tg, supertraits, assoc, fns, input_mode),
{
    let span = trait_ident.span;
    let a = unimock_attr_spec(opts, c, ti, input_mode, fns, span);
    let b = entrait_attr_spec(c, mode, span);
    let t1 = mockall_attr_spec(opts, span);
    let t2 = sub_attrs;
    let t3 = trait_visibility_toks(vis, input_mode, span);
    let t4 = seq![ident_v("trait"@, span), ident_v(trait_ident.name, span)];
    let t5 = params_gen_toks(tg.params, None, false, false, span);
    let t6 = supertraits;
    let t7 = trait_where_toks(tg.preds, span);
    let t8 = seq![open_v(Delimiter::Brace, span)];
    let t9 = assoc;
    let t10 = fn_defs_toks(fns, async_trait, future_send_flag(opts), span);
    let t11 = seq![close_v(Delimiter::Brace, span)];
    assert(a + b + t1 + t2 + t3 + t4 + t5 + t6 + t7 + t8 + t9 + t10 + t11
        =~= a + b + (t1 + t2 + t3 + t4 + t5 + t6 + t7 + t8 + t9 + t10 + t11));
}

/// With a concrete dependency the trait is itself entraited without mocks, so that
/// `Impl<T>` gets its delegating implementation: its definition is the one written for a
/// generic dependency with `#[::entrait::entrait(unimock = false, mockall = false)]`
/// inserted right after the unimock attribute, and nothing else changed.
pub proof fn lemma_concrete_trait_is_entraited(
    opts: Opts,
    c: CrateIdents,
    ti: TraitIndirection,
    ty: TypeV,
    g: crate::trait_fn::GenericV,
    sub_attrs: Seq<TokV>,
    async_trait: bool,
    vis: Seq<TokV>,
    trait_ident: IdentV,
    tg: TraitGenericsV,
    supertraits: Seq<TokV>,
    assoc: Seq<TokV>,
    fns: Seq<TraitFnV>,
    input_mode: InputModeV,
)
    ensures
        ({
            let span = trait_ident.span;
            let u = unimock_attr_spec(opts, c, ti, input_mode, fns, span).len();
            let generic = trait_def_spec(opts, c, ti, ModeV::Generic(g), sub_attrs, async_trait, vis, trait_ident, tg, supertraits, assoc, fns, input_mode);
            let concrete = trait_def_spec(opts, c, ti, ModeV::Concrete(ty), sub_attrs, async_trait, vis, trait_ident, tg, supertraits, assoc, fns, input_mode);
            &&& u <= generic.len()
            &&& concrete == generic.subrange(0, u as int) + entrait_no_mock_attr(c, span) + generic.subrange(u as int, generic.len() as int)
        }),
{
    let span = trait_ident.span;
    lemma_trait_def_split(opts, c, ti, ModeV::Generic(g), sub_attrs, async_trait, vis, trait_ident, tg, supertraits, assoc, fns, input_mode);
    lemma_trait_def_split(opts, c, ti, ModeV::Concrete(ty), sub_attrs, async_trait, vis, trait_ident, tg, supertraits, assoc, fns, input_mode);
    let um = unimock_attr_spec(opts, c, ti, input_mode, fns, span);
    let rest = trait_def_tail(opts, sub_attrs, async_trait, vis, trait_ident, tg, supertraits, assoc, fns, input_mode);
    let generic = trait_def_spec(opts, c, ti, ModeV::Generic(g), sub_attrs, async_trait, vis, trait_ident, tg, supertraits, assoc, fns, input_mode);
    assert(entrait_attr_spec(c, ModeV::Generic(g), span) =~= Seq::<TokV>::empty());
    assert(generic =~= um + rest);
    assert(entrait_attr_spec(c, ModeV::Concrete(ty), span) =~= entrait_no_mock_attr(c, span));
    assert(generic.subrange(0, um.len() as int) =~= um);
    assert(generic.subrange(um.len() as int, generic.len() as int) =~= rest);
}

/// The visibility written before `trait`: a trait defined inside a module, or next to an impl
/// block, that was given no visibility is declared `pub(super)`, so that it can be re-exported
/// from the parent; any visibility that was given, and that of a trait for a single function
/// or a hand-written trait, is written as given.
pub proof fn lemma_trait_visibility(
    opts: Opts,
    c: CrateIdents,
    ti: TraitIndirection,
    mode: ModeV,
    sub_attrs: Seq<TokV>,
    async_trait: bool,
    vis: Seq<TokV>,
    trait_ident: IdentV,
    tg: TraitGenericsV,
    supertraits: Seq<TokV>,
    assoc: Seq<TokV>,
    fns: Seq<TraitFnV>,
    input_mode: InputModeV,
)
    ensures
        ({
            let span = trait_ident.span;
            let p = (unimock_attr_spec(opts, c, ti, input_mode, fns, span).len() + entrait_attr_spec(c, mode, span).len()
                + mockall_attr_spec(opts, span).len() + sub_attrs.len()) as int;
            let d = trait_def_spec(opts, c, ti, mode, sub_attrs, async_trait, vis, trait_ident, tg, supertraits, assoc, fns, input_mode);
            let trait_kw = ident_v("trait"@, span);
            &&& ((input_mode is Module || input_mode is ImplBlock) && vis.len() == 0 ==>
                    d.subrange(p, p + 5) == seq![ident_v("pub"@, span), open_v(Delimiter::Parenthesis, span), ident_v("super"@, span),
                        close_v(Delimiter::Parenthesis, span), trait_kw])
            &&& (vis.len() > 0 || input_mode is SingleFn || input_mode is RawTrait ==>
                    d.subrange(p, p + vis.len() + 1) == vis.push(trait_kw))
        }),
{
    let span = trait_ident.span;
    let pre = unimock_attr_spec(opts, c, ti, input_mode, fns, span) + entrait_attr_spec(c, mode, span)
        + mockall_attr_spec(opts, span) + sub_attrs;
    let vt = trait_visibility_toks(vis, input_mode, span);
    let rest = seq![ident_v("trait"@, span), ident_v(trait_ident.name, span)]
        + params_gen_toks(tg.params, None, false, false, span)
        + supertraits
        + trait_where_toks(tg.preds, span)
        + seq![open_v(Delimiter::Brace, span)]
        + assoc
        + fn_defs_toks(fns, async_trait, future_send_flag(opts), span)
        + seq![close_v(Delimiter::Brace, span)];
    let d = trait_def_spec(opts, c, ti, mode, sub_attrs, async_trait, vis, trait_ident, tg, supertraits, assoc, fns, input_mode);
    assert(d =~= pre + vt + rest);
    let p = pre.len() as int;
    assert(d.subrange(p, p + vt.len() + 1) =~= vt.push(ident_v("trait"@, span)));
}


/// Right after `trait` comes the trait's name, wherever the visibility put `trait`.
pub proof fn lemma_trait_def_name(
    opts: Opts,
    c: CrateIdents,
    ti: TraitIndirection,
    mode: ModeV,
    sub_attrs: Seq<TokV>,
    async_trait: bool,
    vis: Seq<TokV>,
    trait_ident: IdentV,
    tg: TraitGenericsV,
    supertraits: Seq<TokV>,
    assoc: Seq<TokV>,
    fns: Seq<TraitFnV>,
    input_mode: InputModeV,
)
    ensures
        ({
            let span = trait_ident.span;
            let p = (unimock_attr_spec(opts, c, ti, input_mode, fns, span).len() + entrait_attr_spec(c, mode, span).len()
                + mockall_attr_spec(opts, span).len() + sub_attrs.len()) as int;
            let n = trait_visibility_toks(vis, input_mode, span).len() as int;
            let d = trait_def_spec(opts, c, ti, mode, sub_attrs, async_trait, vis, trait_ident, tg, supertraits, assoc, fns, input_mode);
            &&& p + n + 2 <= d.len()
            &&& d[p + n] == ident_v("trait"@, span)
            &&& d[p + n + 1] == ident_v(trait_ident.name, span)
        }),
{
    let span = trait_ident.span;
    let pre = unimock_attr_spec(opts, c, ti, input_mode, fns, span) + entrait_attr_spec(c, mode, span)
        + mockall_attr_spec(opts, span) + sub_attrs;
    let vt = trait_visibility_toks(vis, input_mode, span);
    let rest = seq![ident_v("trait"@, span), ident_v(trait_ident.name, span)]
        + params_gen_toks(tg.params, None, false, false, span)
        + supertraits
        + trait_where_toks(tg.preds, span)
        + seq![open_v(Delimiter::Brace, span)]
        + assoc
        + fn_defs_toks(fns, async_trait, future_send_flag(opts), span)
        + seq![close_v(Delimiter::Brace, span)];
    let d = trait_def_spec(opts, c, ti, mode, sub_attrs, async_trait, vis, trait_ident, tg, supertraits, assoc, fns, input_mode);
    assert(d =~= pre + vt + rest);
}

} // verus!
