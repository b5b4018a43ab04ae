//! The arguments of `entrait` for functions and modules, for traits and for impl blocks.

use vstd::prelude::*;
use proc_macro2::Span;
use crate::tokens::{Tok, TokV, tv};
use crate::error::{ErrV, MacroError};
use crate::model::{Ident, IdentV, Visibility};
use crate::opt::{AsyncStrategy, Delegate, DelegateV, EntraitOpt, EntraitOptV, MockApiIdent, Opts, OptsV, SpanOpt, no_opts};
use crate::parse_util::{ident_at, is_ident_at, is_punct_at, punct_at, span_at, span_of, vis_len, word, word_at, parse_visibility};
use crate::attr_parse::{err_at, lemma_opt_advances, opt_result, parse_entrait_opt, spec_parse_entrait_opt};
use crate::idents::CrateIdents;

verus! {

/// A function option taken into the options; `delegate_by` is refused.
pub open spec fn apply_fn_opt(st: OptsV, o: EntraitOptV) -> Result<OptsV, ErrV> {
    match o {
        EntraitOptV::NoDeps(x) => Ok(OptsV { no_deps: Some(x), ..st }),
        EntraitOptV::Debug(x) => Ok(OptsV { debug: Some(x), ..st }),
        EntraitOptV::BoxFuture(x) => Ok(OptsV { async_strategy: Some(SpanOpt(AsyncStrategy::BoxFuture, x.1)), ..st }),
        EntraitOptV::AssociatedFuture(x) => Ok(OptsV { async_strategy: Some(SpanOpt(AsyncStrategy::AssociatedFuture, x.1)), ..st }),
        EntraitOptV::Export(x) => Ok(OptsV { export: Some(x), ..st }),
        EntraitOptV::MockApi(i) => Ok(OptsV { mock_api: Some(i), ..st }),
        EntraitOptV::Unimock(x) => Ok(OptsV { unimock: Some(x), ..st }),
        EntraitOptV::Mockall(x) => Ok(OptsV { mockall: Some(x), ..st }),
        EntraitOptV::FutureSend(x) => Ok(OptsV { future_send: Some(x), ..st }),
        EntraitOptV::DelegateBy(_, s) => Err(err_at(s, "Unsupported option"@)),
    }
}

/// `, option` repeated.
pub open spec fn spec_fn_opts(t: Seq<TokV>, i: int, st: OptsV, end: Span) -> Result<(OptsV, nat), ErrV>
    decreases t.len() - i,
{
    if !(0 <= i && punct_at(t, i, ',')) {
        Ok((st, i as nat))
    } else {
        match spec_parse_entrait_opt(t, i + 1, end) {
            Err(e) => Err(e),
            Ok((o, j)) => {
                proof { lemma_opt_advances(t, i + 1, end); }
                match apply_fn_opt(st, o) {
                    Err(e) => Err(e),
                    Ok(s2) => spec_fn_opts(t, j as int, s2, end),
                }
            },
        }
    }
}

/// The `entrait` invocation for functions
pub struct EntraitFnAttr {
    pub trait_visibility: Visibility,
    pub trait_ident: Ident,
    pub opts: Opts,
    pub crate_idents: CrateIdents,
}

pub struct FnAttrV {
    pub vis: Seq<TokV>,
    pub trait_ident: IdentV,
    pub opts: OptsV,
}

/// The options read are complete only if no token follows them.
pub open spec fn finish_fn_attr(t: Seq<TokV>, v: nat, id: IdentV, r: Result<(OptsV, nat), ErrV>) -> Result<FnAttrV, ErrV> {
    match r {
        Err(e) => Err(e),
        Ok((st, j)) => if j < t.len() {
            Err(err_at(t[j as int].span, "unexpected token"@))
        } else {
            Ok(FnAttrV { vis: t.subrange(0, v as int), trait_ident: id, opts: st })
        },
    }
}

/// `visibility TraitName, option, ...` with nothing after it.
pub open spec fn spec_fn_attr(t: Seq<TokV>, end: Span) -> Result<FnAttrV, ErrV> {
    let v = vis_len(t, 0);
    match word_at(t, v as int) {
        None => Err(err_at(span_at(t, v as int, end), "expected identifier"@)),
        Some(name) => {
            let id = IdentV { name, span: t[v as int].span };
            finish_fn_attr(t, v, id, spec_fn_opts(t, (v + 1) as int, no_opts(id.span), end))
        },
    }
}

impl EntraitFnAttr {
    pub open spec fn spec_view(&self) -> FnAttrV {
        FnAttrV { vis: tv(self.trait_visibility.tokens@), trait_ident: self.trait_ident@, opts: self.opts@ }
    }
}

fn apply_fn_opt_exec(opts: &mut Opts, o: EntraitOpt) -> (r: Result<(), MacroError>)
    ensures
        match r {
            Ok(()) => apply_fn_opt(old(opts)@, o@) == Ok::<OptsV, ErrV>(final(opts)@),
            Err(e) => apply_fn_opt(old(opts)@, o@) == Err::<OptsV, ErrV>(e@),
        },
{
    match o {
        EntraitOpt::NoDeps(x) => { opts.no_deps = Some(x); },
        EntraitOpt::Debug(x) => { opts.debug = Some(x); },
        EntraitOpt::BoxFuture(x) => { opts.async_strategy = Some(SpanOpt(AsyncStrategy::BoxFuture, x.1)); },
        EntraitOpt::AssociatedFuture(x) => { opts.async_strategy = Some(SpanOpt(AsyncStrategy::AssociatedFuture, x.1)); },
        EntraitOpt::Export(x) => { opts.export = Some(x); },
        EntraitOpt::MockApi(i) => { opts.mock_api = Some(i); },
        EntraitOpt::Unimock(x) => { opts.unimock = Some(x); },
        EntraitOpt::Mockall(x) => { opts.mockall = Some(x); },
        EntraitOpt::FutureSend(x) => { opts.future_send = Some(x); },
        EntraitOpt::DelegateBy(d) => {
            return Err(MacroError::new(d.1, "Unsupported option"));
        },
    }
    Ok(())
}

fn empty_opts(default_span: Span) -> (o: Opts)
    ensures
        o@ == no_opts(default_span),
{
    Opts {
        default_span,
        no_deps: None,
        debug: None,
        async_strategy: None,
        export: None,
        mock_api: None,
        unimock: None,
        mockall: None,
        future_send: None,
    }
}

/// Parses the arguments of `entrait` on a function or module. `end` is the location used
/// past the last token.
pub fn parse_fn_attr(toks: &Vec<Tok>, end: Span) -> (r: Result<EntraitFnAttr, MacroError>)
    ensures
        match r {
            Ok(a) => spec_fn_attr(tv(toks@), end) == Ok::<FnAttrV, ErrV>(a.spec_view())
                && a.crate_idents.spec_wf(span_at(tv(toks@), 0, end)),
            Err(e) => spec_fn_attr(tv(toks@), end) == Err::<FnAttrV, ErrV>(e@),
        },
{
    let ghost t = tv(toks@);
    let n = toks.len();
    let span = span_of(toks, 0, end);
    let (trait_visibility, v) = parse_visibility(toks, 0);
    let trait_ident = match word(toks, v) {
        None => return Err(MacroError::new(span_of(toks, v, end), "expected identifier")),
        Some(id) => id,
    };
    let mut opts = empty_opts(trait_ident.span);
    let mut pos = v + 1;
    let ghost id = trait_ident@;
    let ghost goal = spec_fn_opts(t, pos as int, opts@, end);
    assert(spec_fn_attr(t, end) == finish_fn_attr(t, v as nat, id, goal));
    while is_punct_at(toks, pos, ',')
        invariant
            t == tv(toks@),
            n == toks@.len(),
            pos <= n,
            spec_fn_opts(t, pos as int, opts@, end) == goal,
            spec_fn_attr(t, end) == finish_fn_attr(t, v as nat, id, goal),
        decreases n - pos,
    {
        let (o, j) = match parse_entrait_opt(toks, pos + 1, end) {
            Err(e) => return Err(e),
            Ok(x) => x,
        };
        match apply_fn_opt_exec(&mut opts, o) {
            Err(e) => return Err(e),
            Ok(()) => {},
        }
        pos = j;
    }
    if pos < n {
        return Err(MacroError::new(toks[pos].span, "unexpected token"));
    }
    let crate_idents = CrateIdents::new(span);
    Ok(EntraitFnAttr { trait_visibility, trait_ident, opts, crate_idents })
}

} // verus!

verus! {

/// The trait to generate for the implementations of an entraited trait.
pub struct ImplTrait(pub Visibility, pub Ident);

/// The `entrait` invocation for traits.
pub struct EntraitTraitAttr {
    pub impl_trait: Option<ImplTrait>,
    pub opts: Opts,
    pub delegation_kind: Option<SpanOpt<Delegate>>,
    pub crate_idents: CrateIdents,
}

pub struct TraitAttrV {
    pub impl_trait: Option<(Seq<TokV>, IdentV)>,
    pub opts: OptsV,
    pub delegation_kind: Option<(DelegateV, Span)>,
}

impl EntraitTraitAttr {
    pub open spec fn spec_view(&self) -> TraitAttrV {
        TraitAttrV {
            impl_trait: impl_trait_view(self.impl_trait),
            opts: self.opts@,
            delegation_kind: match self.delegation_kind {
                Some(d) => Some((d.0@, d.1)),
                None => None,
            },
        }
    }
}

/// A trait option taken into the options; `no_deps` and `export` are refused, the latter
/// because a trait's mocks are always exported.
pub open spec fn apply_trait_opt(st: (OptsV, Option<(DelegateV, Span)>), o: EntraitOptV) -> Result<(OptsV, Option<(DelegateV, Span)>), ErrV> {
    let (opts, dk) = st;
    match o {
        EntraitOptV::Debug(x) => Ok((OptsV { debug: Some(x), ..opts }, dk)),
        EntraitOptV::BoxFuture(x) => Ok((OptsV { async_strategy: Some(SpanOpt(AsyncStrategy::BoxFuture, x.1)), ..opts }, dk)),
        EntraitOptV::AssociatedFuture(x) => Ok((OptsV { async_strategy: Some(SpanOpt(AsyncStrategy::AssociatedFuture, x.1)), ..opts }, dk)),
        EntraitOptV::MockApi(i) => Ok((OptsV { mock_api: Some(i), ..opts }, dk)),
        EntraitOptV::Unimock(x) => Ok((OptsV { unimock: Some(x), ..opts }, dk)),
        EntraitOptV::Mockall(x) => Ok((OptsV { mockall: Some(x), ..opts }, dk)),
        EntraitOptV::FutureSend(x) => Ok((OptsV { future_send: Some(x), ..opts }, dk)),
        EntraitOptV::DelegateBy(d, s) => Ok((opts, Some((d, s)))),
        _ => Err(err_at(o.span(), "Unsupported option"@)),
    }
}

/// `option, option, ...`: at least one option, separated by commas.
pub open spec fn spec_trait_opts(t: Seq<TokV>, i: int, st: (OptsV, Option<(DelegateV, Span)>), end: Span) -> Result<((OptsV, Option<(DelegateV, Span)>), nat), ErrV>
    decreases t.len() - i,
{
    if i < 0 {
        Ok((st, 0))
    } else {
        match spec_parse_entrait_opt(t, i, end) {
            Err(e) => Err(e),
            Ok((o, j)) => {
                proof { lemma_opt_advances(t, i, end); }
                match apply_trait_opt(st, o) {
                    Err(e) => Err(e),
                    Ok(s2) => if punct_at(t, j as int, ',') {
                        spec_trait_opts(t, (j + 1) as int, s2, end)
                    } else {
                        Ok((s2, j))
                    },
                }
            },
        }
    }
}

/// The leading `visibility ImplTraitName ,` of the arguments, present when they do not start
/// with an option; and the position after it.
pub open spec fn spec_impl_trait_head(t: Seq<TokV>, end: Span) -> Result<(Option<(Seq<TokV>, IdentV)>, nat), ErrV> {
    if t.len() > 0 && spec_parse_entrait_opt(t, 0, end) is Err {
        let v = vis_len(t, 0);
        match word_at(t, v as int) {
            None => Err(err_at(span_at(t, v as int, end), "expected identifier"@)),
            Some(name) => {
                let p = v + 1;
                let p2 = if punct_at(t, p as int, ',') { p + 1 } else { p };
                Ok((Some((t.subrange(0, v as int), IdentV { name, span: t[v as int].span })), p2 as nat))
            },
        }
    } else {
        Ok((None, 0))
    }
}

pub open spec fn finish_trait_attr(t: Seq<TokV>, impl_trait: Option<(Seq<TokV>, IdentV)>, r: Result<((OptsV, Option<(DelegateV, Span)>), nat), ErrV>) -> Result<TraitAttrV, ErrV> {
    match r {
        Err(e) => Err(e),
        Ok(((opts, dk), j)) => if j < t.len() {
            Err(err_at(t[j as int].span, "unexpected token"@))
        } else {
            Ok(TraitAttrV { impl_trait, opts, delegation_kind: dk })
        },
    }
}

/// The options of an entraited trait before any is given: mocks are exported, since such a
/// trait lives upstream of the application that mocks it; nothing else is set.
pub open spec fn trait_base_opts(end: Span) -> OptsV {
    OptsV { export: Some(SpanOpt(true, end)), ..no_opts(end) }
}

/// `[visibility ImplTrait[,]] option, ...` with nothing after it. Options default to the
/// location `end`.
pub open spec fn spec_trait_attr(t: Seq<TokV>, end: Span) -> Result<TraitAttrV, ErrV> {
    match spec_impl_trait_head(t, end) {
        Err(e) => Err(e),
        Ok((impl_trait, p)) => finish_trait_attr(
            t,
            impl_trait,
            if p < t.len() {
                spec_trait_opts(t, p as int, (trait_base_opts(end), None), end)
            } else {
                Ok(((trait_base_opts(end), None), p))
            },
        ),
    }
}

proof fn lemma_trait_opts_keep_export(t: Seq<TokV>, i: int, st: (OptsV, Option<(DelegateV, Span)>), end: Span)
    ensures
        spec_trait_opts(t, i, st, end) matches Ok((s2, _)) ==> s2.0.export == st.0.export,
    decreases t.len() - i,
{
    if i >= 0 {
        match spec_parse_entrait_opt(t, i, end) {
            Ok((o, j)) => {
                lemma_opt_advances(t, i, end);
                match apply_trait_opt(st, o) {
                    Ok(s2) => {
                        if punct_at(t, j as int, ',') {
                            lemma_trait_opts_keep_export(t, (j + 1) as int, s2, end);
                        }
                    },
                    Err(_) => {},
                }
            },
            Err(_) => {},
        }
    }
}

/// The mocks of an entraited trait are always exported: whatever options are given, the
/// arguments of `entrait` on a trait switch exporting on.
pub proof fn lemma_trait_mocks_exported(t: Seq<TokV>, end: Span)
    ensures
        spec_trait_attr(t, end) matches Ok(a) ==> crate::opt::flag(a.opts.export),
{
    match spec_impl_trait_head(t, end) {
        Ok((impl_trait, p)) => {
            if p < t.len() {
                lemma_trait_opts_keep_export(t, p as int, (trait_base_opts(end), None), end);
            }
        },
        Err(_) => {},
    }
}

fn apply_trait_opt_exec(opts: &mut Opts, dk: &mut Option<SpanOpt<Delegate>>, o: EntraitOpt) -> (r: Result<(), MacroError>)
    ensures
        match r {
            Ok(()) => apply_trait_opt((old(opts)@, opt_dk(*old(dk))), o@) == Ok::<(OptsV, Option<(DelegateV, Span)>), ErrV>((final(opts)@, opt_dk(*final(dk)))),
            Err(e) => apply_trait_opt((old(opts)@, opt_dk(*old(dk))), o@) == Err::<(OptsV, Option<(DelegateV, Span)>), ErrV>(e@),
        },
{
    let span = o.span();
    match o {
        EntraitOpt::Debug(x) => { opts.debug = Some(x); },
        EntraitOpt::BoxFuture(x) => { opts.async_strategy = Some(SpanOpt(AsyncStrategy::BoxFuture, x.1)); },
        EntraitOpt::AssociatedFuture(x) => { opts.async_strategy = Some(SpanOpt(AsyncStrategy::AssociatedFuture, x.1)); },
        EntraitOpt::MockApi(i) => { opts.mock_api = Some(i); },
        EntraitOpt::Unimock(x) => { opts.unimock = Some(x); },
        EntraitOpt::Mockall(x) => { opts.mockall = Some(x); },
        EntraitOpt::FutureSend(x) => { opts.future_send = Some(x); },
        EntraitOpt::DelegateBy(d) => { *dk = Some(d); },
        _ => {
            return Err(MacroError::new(span, "Unsupported option"));
        },
    }
    Ok(())
}

pub open spec fn impl_trait_view(it: Option<ImplTrait>) -> Option<(Seq<TokV>, IdentV)> {
    match it {
        Some(x) => Some((tv(x.0.tokens@), x.1@)),
        None => None,
    }
}

pub open spec fn opt_dk(dk: Option<SpanOpt<Delegate>>) -> Option<(DelegateV, Span)> {
    match dk {
        Some(d) => Some((d.0@, d.1)),
        None => None,
    }
}

/// Parses the arguments of `entrait` on a trait. `end` is the location used past the last
/// token, and the default location of the options.
pub fn parse_trait_attr(toks: &Vec<Tok>, end: Span) -> (r: Result<EntraitTraitAttr, MacroError>)
    ensures
        match r {
            Ok(a) => spec_trait_attr(tv(toks@), end) == Ok::<TraitAttrV, ErrV>(a.spec_view())
                && a.crate_idents.spec_wf(span_at(tv(toks@), 0, end)),
            Err(e) => spec_trait_attr(tv(toks@), end) == Err::<TraitAttrV, ErrV>(e@),
        },
{
    let ghost t = tv(toks@);
    let n = toks.len();
    let span = span_of(toks, 0, end);
    let starts_with_opt = if n > 0 {
        match parse_entrait_opt(toks, 0, end) {
            Ok(_) => true,
            Err(_) => false,
        }
    } else {
        false
    };
    let mut impl_trait: Option<ImplTrait> = None;
    let mut pos: usize = 0;
    if n > 0 && !starts_with_opt {
        let (vis, v) = parse_visibility(toks, 0);
        let ident = match word(toks, v) {
            None => return Err(MacroError::new(span_of(toks, v, end), "expected identifier")),
            Some(id) => id,
        };
        pos = v + 1;
        if is_punct_at(toks, pos, ',') {
            pos = pos + 1;
        }
        impl_trait = Some(ImplTrait(vis, ident));
    }
    let ghost it = impl_trait_view(impl_trait);
    assert(spec_impl_trait_head(t, end) == Ok::<(Option<(Seq<TokV>, IdentV)>, nat), ErrV>((it, pos as nat)));
    let mut opts = empty_opts(end);
    opts.export = Some(SpanOpt(true, end));
    let mut dk: Option<SpanOpt<Delegate>> = None;
    assert(opt_dk(dk) is None);
    if pos < n {
        let ghost goal = spec_trait_opts(t, pos as int, (opts@, opt_dk(dk)), end);
        assert(spec_trait_attr(t, end) == finish_trait_attr(t, it, goal));
        loop
            invariant_except_break
                spec_trait_opts(t, pos as int, (opts@, opt_dk(dk)), end) == goal,
            invariant
                t == tv(toks@),
                n == toks@.len(),
                pos <= n,
                spec_trait_attr(t, end) == finish_trait_attr(t, it, goal),
            ensures
                goal == Ok::<((OptsV, Option<(DelegateV, Span)>), nat), ErrV>(((opts@, opt_dk(dk)), pos as nat)),
            decreases n - pos,
        {
            let (o, j) = match parse_entrait_opt(toks, pos, end) {
                Err(e) => return Err(e),
                Ok(x) => x,
            };
            match apply_trait_opt_exec(&mut opts, &mut dk, o) {
                Err(e) => return Err(e),
                Ok(()) => {},
            }
            if is_punct_at(toks, j, ',') {
                pos = j + 1;
            } else {
                pos = j;
                break;
            }
        }
    }
    if pos < n {
        return Err(MacroError::new(toks[pos].span, "unexpected token"));
    }
    let crate_idents = CrateIdents::new(span);
    Ok(EntraitTraitAttr { impl_trait, opts, delegation_kind: dk, crate_idents })
}

} // verus!

verus! {

/// Whether an entraited impl block implements the static or the dynamic implementation trait.
#[derive(Clone, Copy, PartialEq, Eq, Structural, Debug)]
pub enum ImplKind {
    Static,
    DynRef,
}

/// Input of `#[entrait(ref|dyn?)] impl A for B {}`
pub struct EntraitSimpleImplAttr {
    pub impl_kind: ImplKind,
    pub opts: Opts,
    pub crate_idents: CrateIdents,
}

/// The arguments of `entrait` on an implementation module.
pub struct EntraitImplAttr {
    pub opts: Opts,
    pub crate_idents: CrateIdents,
}

/// Only `debug` is taken on an impl block.
pub open spec fn apply_impl_opt(st: OptsV, o: EntraitOptV) -> Result<OptsV, ErrV> {
    match o {
        EntraitOptV::Debug(x) => Ok(OptsV { debug: Some(x), ..st }),
        _ => Err(err_at(o.span(), "Unsupported option"@)),
    }
}

/// `option, option, ...`: at least one option, separated by commas.
pub open spec fn spec_impl_opts(t: Seq<TokV>, i: int, st: OptsV, end: Span) -> Result<(OptsV, nat), ErrV>
    decreases t.len() - i,
{
    if i < 0 {
        Ok((st, 0))
    } else {
        match spec_parse_entrait_opt(t, i, end) {
            Err(e) => Err(e),
            Ok((o, j)) => {
                proof { lemma_opt_advances(t, i, end); }
                match apply_impl_opt(st, o) {
                    Err(e) => Err(e),
                    Ok(s2) => if punct_at(t, j as int, ',') {
                        spec_impl_opts(t, (j + 1) as int, s2, end)
                    } else {
                        Ok((s2, j))
                    },
                }
            },
        }
    }
}

/// Options from `p` on, if there are any tokens left; nothing may follow them.
pub open spec fn spec_impl_opts_to_end(t: Seq<TokV>, p: nat, end: Span) -> Result<OptsV, ErrV> {
    finish_impl_opts(t, if p < t.len() {
        spec_impl_opts(t, p as int, no_opts(span_at(t, 0, end)), end)
    } else {
        Ok((no_opts(span_at(t, 0, end)), p))
    })
}

pub open spec fn finish_impl_opts(t: Seq<TokV>, r: Result<(OptsV, nat), ErrV>) -> Result<OptsV, ErrV> {
    match r {
        Err(e) => Err(e),
        Ok((st, j)) => if j < t.len() {
            Err(err_at(t[j as int].span, "unexpected token"@))
        } else {
            Ok(st)
        },
    }
}

/// How many of the tokens `ref` and `dyn` lead the arguments.
pub open spec fn ref_dyn_len(t: Seq<TokV>) -> nat {
    let p1: nat = if ident_at(t, 0) == Some("ref"@) { 1 } else { 0 };
    if ident_at(t, p1 as int) == Some("dyn"@) { p1 + 1 } else { p1 }
}

/// `[ref] [dyn] option, ...`: `ref` or `dyn` asks for the dynamic kind.
pub open spec fn spec_simple_impl_attr(t: Seq<TokV>, end: Span) -> Result<(ImplKind, OptsV), ErrV> {
    match spec_impl_opts_to_end(t, ref_dyn_len(t), end) {
        Err(e) => Err(e),
        Ok(st) => Ok((if ref_dyn_len(t) > 0 { ImplKind::DynRef } else { ImplKind::Static }, st)),
    }
}

fn parse_impl_opts(toks: &Vec<Tok>, p: usize, end: Span) -> (r: Result<Opts, MacroError>)
    requires
        p <= toks@.len(),
    ensures
        match r {
            Ok(o) => spec_impl_opts_to_end(tv(toks@), p as nat, end) == Ok::<OptsV, ErrV>(o@),
            Err(e) => spec_impl_opts_to_end(tv(toks@), p as nat, end) == Err::<OptsV, ErrV>(e@),
        },
{
    let ghost t = tv(toks@);
    let n = toks.len();
    let mut opts = empty_opts(span_of(toks, 0, end));
    let mut pos = p;
    if pos < n {
        let ghost goal = spec_impl_opts(t, pos as int, opts@, end);
        loop
            invariant_except_break
                spec_impl_opts(t, pos as int, opts@, end) == goal,
            invariant
                t == tv(toks@),
                n == toks@.len(),
                pos <= n,
                goal == spec_impl_opts(t, p as int, no_opts(span_at(t, 0, end)), end),
                spec_impl_opts_to_end(t, p as nat, end) == finish_impl_opts(t, goal),
            ensures
                goal == Ok::<(OptsV, nat), ErrV>((opts@, pos as nat)),
            decreases n - pos,
        {
            let (o, j) = match parse_entrait_opt(toks, pos, end) {
                Err(e) => return Err(e),
                Ok(x) => x,
            };
            match o {
                EntraitOpt::Debug(x) => { opts.debug = Some(x); },
                _ => { return Err(MacroError::new(o.span(), "Unsupported option")); },
            }
            if is_punct_at(toks, j, ',') {
                pos = j + 1;
            } else {
                pos = j;
                break;
            }
        }
    }
    if pos < n {
        return Err(MacroError::new(toks[pos].span, "unexpected token"));
    }
    Ok(opts)
}

/// Parses the arguments of `entrait` on an impl block.
pub fn parse_simple_impl_attr(toks: &Vec<Tok>, end: Span) -> (r: Result<EntraitSimpleImplAttr, MacroError>)
    ensures
        match r {
            Ok(a) => spec_simple_impl_attr(tv(toks@), end) == Ok::<(ImplKind, OptsV), ErrV>((a.impl_kind, a.opts@))
                && a.crate_idents.spec_wf(span_at(tv(toks@), 0, end)),
            Err(e) => spec_simple_impl_attr(tv(toks@), end) == Err::<(ImplKind, OptsV), ErrV>(e@),
        },
{
    let span = span_of(toks, 0, end);
    let ref_token = is_ident_at(toks, 0, "ref");
    let p1: usize = if ref_token { 1 } else { 0 };
    let dyn_token = is_ident_at(toks, p1, "dyn");
    let p2: usize = if dyn_token { p1 + 1 } else { p1 };
    let opts = parse_impl_opts(toks, p2, end)?;
    Ok(EntraitSimpleImplAttr {
        impl_kind: if dyn_token || ref_token { ImplKind::DynRef } else { ImplKind::Static },
        opts,
        crate_idents: CrateIdents::new(span),
    })
}

/// Parses the arguments of `entrait` on an implementation module: options only.
pub fn parse_impl_attr(toks: &Vec<Tok>, end: Span) -> (r: Result<EntraitImplAttr, MacroError>)
    ensures
        match r {
            Ok(a) => spec_impl_opts_to_end(tv(toks@), 0, end) == Ok::<OptsV, ErrV>(a.opts@)
                && a.crate_idents.spec_wf(span_at(tv(toks@), 0, end)),
            Err(e) => spec_impl_opts_to_end(tv(toks@), 0, end) == Err::<OptsV, ErrV>(e@),
        },
{
    let span = span_of(toks, 0, end);
    let opts = parse_impl_opts(toks, 0, end)?;
    Ok(EntraitImplAttr { opts, crate_idents: CrateIdents::new(span) })
}

} // verus!
