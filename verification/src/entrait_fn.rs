//! `entrait` on a function or on a module of functions.

use vstd::prelude::*;
use proc_macro2::Span;
use crate::analyze_generics::{FnDepsV, GenericsAnalyzer, TraitGenerics, TraitGenericsV};
use crate::converter::{converted_sig, lemma_converted_args_plain};
use crate::error::{ErrV, MacroError};
use crate::fn_delegation_codegen::{FnDelegationCodegen, all_fns_plain, impl_block_spec};
use crate::generics::{ImplIndirection, TraitIndirection, UseAssociatedFuture, any_async, detect_use_associated_future};
use crate::idents::CrateIdents;
use crate::input::{InputFn, InputMod, ModItem, mod_items_toks, pub_fns, write_mod_items};
use crate::input_attr::EntraitFnAttr;
use crate::model::{Ident, IdentV, Signature};
use crate::opt::{AsyncStrategy, Opts, flag, or_default};
use crate::signature::ImplReceiverKind;
use crate::sub_attributes::SubAttribute;
use crate::tokens::{
    Delimiter, Spacing, Tok, TokV, tv, ident_v, punct_v, open_v, close_v, path_sep_v, extend, push_tok, push_ident,
    push_punct, push_path_sep, push_open, push_close, ident_of, lemma_add_assoc, lemma_push_add,
};
use crate::trait_codegen::{Supertraits, TraitCodegen, trait_def_spec};
use crate::trait_fn::{
    FnInputMode, InputModeV, ModeV, TraitFn, TraitFnAnalyzer, TraitFnV, detect_trait_dependency_mode, fns_view,
    input_mode_view, mode_view, spec_analyze, spec_mode,
};

verus! {

/// The methods made from functions, one after the other, with the generics gathered; the
/// first error stops the analysis.
pub open spec fn spec_analyze_all(
    acc: TraitGenericsV,
    fns: Seq<InputFn>,
    no_deps: bool,
    kind: ImplReceiverKind,
    entrait: IdentV,
    trait_span: Span,
    gen_span: Span,
) -> Result<(Seq<TraitFnV>, TraitGenericsV), ErrV>
    decreases fns.len(),
{
    if fns.len() == 0 {
        Ok((Seq::empty(), acc))
    } else {
        match spec_analyze_all(acc, fns.drop_last(), no_deps, kind, entrait, trait_span, gen_span) {
            Err(e) => Err(e),
            Ok((done, g)) => {
                let sig = fns.last().fn_sig;
                match spec_analyze(g, sig, no_deps, kind, entrait, trait_span, gen_span) {
                    Err(e) => Err(e),
                    Ok((d, s, g2)) => Ok((
                        done.push(TraitFnV { deps: d, attrs: Seq::empty(), sig: s, originally_async: sig.asyncness }),
                        g2,
                    )),
                }
            },
        }
    }
}

pub open spec fn no_generics() -> TraitGenericsV {
    TraitGenericsV { params: Seq::empty(), preds: Seq::empty() }
}

/// The methods of `spec_analyze_all` have plain parameter names.
pub proof fn lemma_analyzed_plain(
    acc: TraitGenericsV,
    fns: Seq<InputFn>,
    no_deps: bool,
    kind: ImplReceiverKind,
    entrait: IdentV,
    trait_span: Span,
    gen_span: Span,
)
    ensures
        spec_analyze_all(acc, fns, no_deps, kind, entrait, trait_span, gen_span) matches Ok((done, _)) ==> all_fns_plain(done),
    decreases fns.len(),
{
    if fns.len() > 0 {
        lemma_analyzed_plain(acc, fns.drop_last(), no_deps, kind, entrait, trait_span, gen_span);
        match spec_analyze_all(acc, fns.drop_last(), no_deps, kind, entrait, trait_span, gen_span) {
            Ok((done, g)) => {
                let sig = fns.last().fn_sig;
                match crate::analyze_generics::spec_analyze_fn_deps(g, sig, no_deps) {
                    Ok((d, _)) => {
                        lemma_converted_args_plain(sig@, d, kind, entrait, trait_span, gen_span);
                    },
                    _ => {},
                }
            },
            _ => {},
        }
    }
}

/// Analyzes the functions in order; stops at the first error.
pub fn analyze_all(
    fns: &Vec<&InputFn>,
    analyzer: &mut GenericsAnalyzer,
    kind: ImplReceiverKind,
    trait_span: Span,
    gen_span: Span,
    crate_idents: &CrateIdents,
    opts: &Opts,
) -> (r: Result<Vec<TraitFn>, MacroError>)
    ensures
        match spec_analyze_all(old(analyzer).trait_generics@, fns@.map_values(|f: &InputFn| *f), flag(opts.no_deps), kind, crate_idents.entrait@, trait_span, gen_span) {
            Ok((done, g)) => r matches Ok(v) && fns_view(v@) == done && final(analyzer).trait_generics@ == g,
            Err(e) => r matches Err(x) && x@ == e,
        },
{
    let ghost acc = analyzer.trait_generics@;
    let ghost all = fns@.map_values(|f: &InputFn| *f);
    let ghost nd = flag(opts.no_deps);
    let ghost ent = crate_idents.entrait@;
    let mut out: Vec<TraitFn> = Vec::new();
    let mut i: usize = 0;
    assert(all.take(0) =~= Seq::<InputFn>::empty());
    assert(fns_view(out@) =~= Seq::<TraitFnV>::empty());
    while i < fns.len()
        invariant
            i <= fns@.len(),
            all == fns@.map_values(|f: &InputFn| *f),
            acc == old(analyzer).trait_generics@,
            nd == flag(opts.no_deps),
            ent == crate_idents.entrait@,
            out@.len() == i,
            spec_analyze_all(acc, all.take(i as int), nd, kind, ent, trait_span, gen_span) == Ok::<(Seq<TraitFnV>, TraitGenericsV), ErrV>((fns_view(out@), analyzer.trait_generics@)),
        decreases fns@.len() - i,
    {
        let ghost t = all.take(i + 1);
        assert(t.drop_last() =~= all.take(i as int));
        assert(t.last() == *fns@[i as int]);
        let analyzer_fn = TraitFnAnalyzer { impl_receiver_kind: kind, trait_span, gen_span, crate_idents, opts };
        let ghost before = fns_view(out@);
        let ghost g_before = analyzer.trait_generics@;
        match analyzer_fn.analyze(&fns[i].fn_sig, analyzer) {
            Ok(tf) => {
                proof {
                    let sig = fns@[i as int].fn_sig;
                    let r0 = spec_analyze(g_before, sig, nd, kind, ent, trait_span, gen_span);
                    assert(r0 is Ok);
                    let x = r0->Ok_0;
                    assert(tv(tf.attrs@) =~= Seq::<TokV>::empty());
                    assert(tf@ == TraitFnV { deps: x.0, attrs: Seq::empty(), sig: x.1, originally_async: sig.asyncness });
                    assert(spec_analyze_all(acc, t, nd, kind, ent, trait_span, gen_span)
                        == Ok::<(Seq<TraitFnV>, TraitGenericsV), ErrV>((before.push(tf@), x.2)));
                }
                out.push(tf);
                assert(fns_view(out@) =~= before.push(out@[i as int]@));
            },
            Err(e) => {
                proof {
                    assert(spec_analyze(g_before, fns@[i as int].fn_sig, nd, kind, ent, trait_span, gen_span) == Err::<(FnDepsV, crate::model::SigV, TraitGenericsV), ErrV>(e@));
                    assert(spec_analyze_all(acc, t, nd, kind, ent, trait_span, gen_span) == Err::<(Seq<TraitFnV>, TraitGenericsV), ErrV>(e@));
                    lemma_error_stays(acc, all, i as int + 1, nd, kind, ent, trait_span, gen_span);
                    assert(spec_analyze_all(acc, all, nd, kind, ent, trait_span, gen_span) == Err::<(Seq<TraitFnV>, TraitGenericsV), ErrV>(e@));
                }
                return Err(e);
            },
        }
        i = i + 1;
    }
    assert(all.take(fns@.len() as int) =~= all);
    Ok(out)
}

/// An error in a prefix is the error of the whole.
proof fn lemma_error_stays(
    acc: TraitGenericsV,
    fns: Seq<InputFn>,
    k: int,
    no_deps: bool,
    kind: ImplReceiverKind,
    entrait: IdentV,
    trait_span: Span,
    gen_span: Span,
)
    requires
        0 <= k <= fns.len(),
    ensures
        spec_analyze_all(acc, fns.take(k), no_deps, kind, entrait, trait_span, gen_span) is Err ==>
            spec_analyze_all(acc, fns, no_deps, kind, entrait, trait_span, gen_span)
                == spec_analyze_all(acc, fns.take(k), no_deps, kind, entrait, trait_span, gen_span),
    decreases fns.len() - k,
{
    if k < fns.len() {
        lemma_error_stays(acc, fns, k + 1, no_deps, kind, entrait, trait_span, gen_span);
        let t = fns.take(k + 1);
        assert(t.drop_last() =~= fns.take(k));
    } else {
        assert(fns.take(k) =~= fns);
    }
}

/// Whether associated futures are used for these options and methods.
pub open spec fn spec_uaf(opts: Opts, fns: Seq<TraitFnV>) -> bool {
    or_default(opts.async_strategy, AsyncStrategy::NoHack, opts.default_span).0 == AsyncStrategy::AssociatedFuture && any_async(fns)
}

/// The trait definition and its implementation for the analyzed methods.
pub open spec fn trait_and_impl(attr: EntraitFnAttr, fns: Seq<TraitFnV>, g: TraitGenericsV, m: ModeV, input: InputModeV) -> Seq<TokV> {
    let ts = attr.trait_ident.span;
    trait_def_spec(attr.opts, attr.crate_idents, TraitIndirection::Plain, m, Seq::empty(), false, tv(attr.trait_visibility.tokens@), attr.trait_ident@, g, Seq::empty(), Seq::empty(), fns, input)
        + impl_block_spec(attr.opts, seq![ident_v(attr.trait_ident.name@, attr.trait_ident.span)], ts, ImplIndirection::Direct, g, input, m, spec_uaf(attr.opts, fns), Seq::empty(), fns)
}

/// What `entrait` makes of a single function: the function itself, the trait and its implementation.
pub open spec fn spec_single_fn(attr: EntraitFnAttr, f: InputFn, gen_span: Span) -> Result<Seq<TokV>, ErrV> {
    let ts = attr.trait_ident.span;
    match spec_analyze_all(no_generics(), seq![f], flag(attr.opts.no_deps), ImplReceiverKind::SelfRef, attr.crate_idents.entrait@, ts, gen_span) {
        Err(e) => Err(e),
        Ok((fns, g)) => match spec_mode(fns, InputModeV::SingleFn, attr.crate_idents, ts) {
            Err(e) => Err(e),
            Ok(m) => Ok(f.spec_tokens() + trait_and_impl(attr, fns, g, m, InputModeV::SingleFn)),
        },
    }
}

/// Writes the trait and its implementation.
fn gen_trait_and_impl(attr: &EntraitFnAttr, trait_fns: &Vec<TraitFn>, tg: &TraitGenerics, fn_input_mode: &FnInputMode, out: &mut Vec<Tok>) -> (r: Result<(), MacroError>)
    requires
        all_fns_plain(fns_view(trait_fns@)),
        *fn_input_mode is SingleFn || *fn_input_mode is Module,
    ensures
        match spec_mode(fns_view(trait_fns@), input_mode_view(*fn_input_mode), attr.crate_idents, attr.trait_ident.span) {
            Ok(m) => r is Ok && tv(final(out)@) == tv(old(out)@) + trait_and_impl(*attr, fns_view(trait_fns@), tg@, m, input_mode_view(*fn_input_mode)),
            Err(e) => r matches Err(x) && x@ == e,
        },
{
    let trait_dependency_mode = match detect_trait_dependency_mode(fn_input_mode, trait_fns, &attr.crate_idents, attr.trait_ident.span) {
        Ok(m) => m,
        Err(e) => return Err(e),
    };
    let use_associated_future = detect_use_associated_future(&attr.opts, trait_fns);
    let sub_attributes: Vec<SubAttribute> = Vec::new();
    let codegen = TraitCodegen {
        opts: &attr.opts,
        crate_idents: &attr.crate_idents,
        trait_indirection: TraitIndirection::Plain,
        trait_dependency_mode: &trait_dependency_mode,
        sub_attributes: &sub_attributes,
    };
    let no_assoc: Vec<Tok> = Vec::new();
    assert(tv(no_assoc@) =~= Seq::<TokV>::empty());
    let trait_def = match codegen.gen_trait_def(&attr.trait_visibility, &attr.trait_ident, tg, &Supertraits::Empty, &no_assoc, trait_fns, fn_input_mode) {
        Ok(t) => t,
        Err(e) => return Err(e),
    };
    let mut trait_ref: Vec<Tok> = Vec::new();
    push_tok(&mut trait_ref, ident_of(&attr.trait_ident.name, attr.trait_ident.span));
    assert(tv(trait_ref@) =~= seq![ident_v(attr.trait_ident.name@, attr.trait_ident.span)]);
    let delegation = FnDelegationCodegen {
        opts: &attr.opts,
        crate_idents: &attr.crate_idents,
        trait_ref: &trait_ref,
        trait_span: attr.trait_ident.span,
        impl_indirection: ImplIndirection::Direct,
        trait_generics: tg,
        fn_input_mode,
        trait_dependency_mode: &trait_dependency_mode,
        use_associated_future,
        sub_attributes: &sub_attributes,
    };
    let impl_block = delegation.gen_impl_block(trait_fns);
    let ghost base = tv(out@);
    extend(out, &trait_def);
    extend(out, &impl_block);
    proof { lemma_add_assoc(base, tv(trait_def@), tv(impl_block@)); }
    assert(sub_attributes@ =~= Seq::<SubAttribute>::empty());
    assert(crate::trait_codegen::trait_level_subs(sub_attributes@) =~= Seq::<TokV>::empty());
    assert(crate::fn_delegation_codegen::impl_level_subs(sub_attributes@) =~= Seq::<TokV>::empty());
    assert(!crate::sub_attributes::has_async_trait(sub_attributes@));
    Ok(())
}

/// `entrait` on a function: the function, then the trait with the function as method, and
/// the implementation that calls the function.
pub fn entrait_for_single_fn(attr: &EntraitFnAttr, input_fn: &InputFn, gen_span: Span) -> (r: Result<Vec<Tok>, MacroError>)
    ensures
        match spec_single_fn(*attr, *input_fn, gen_span) {
            Ok(t) => r matches Ok(x) && tv(x@) == t,
            Err(e) => r matches Err(x) && x@ == e,
        },
{
    let fn_ident = Ident { name: input_fn.fn_sig.ident.clone(), span: input_fn.fn_sig.span };
    let fn_input_mode = FnInputMode::SingleFn(&fn_ident);
    let mut generics_analyzer = GenericsAnalyzer::new();
    assert(generics_analyzer.trait_generics@.params =~= no_generics().params);
    assert(generics_analyzer.trait_generics@.preds =~= no_generics().preds);
    let mut fns: Vec<&InputFn> = Vec::new();
    fns.push(input_fn);
    assert(fns@.map_values(|f: &InputFn| *f) =~= seq![*input_fn]);
    let ghost ts = attr.trait_ident.span;
    let trait_fns = match analyze_all(&fns, &mut generics_analyzer, ImplReceiverKind::SelfRef, attr.trait_ident.span, gen_span, &attr.crate_idents, &attr.opts) {
        Ok(v) => v,
        Err(e) => return Err(e),
    };
    proof {
        lemma_analyzed_plain(no_generics(), seq![*input_fn], flag(attr.opts.no_deps), ImplReceiverKind::SelfRef, attr.crate_idents.entrait@, ts, gen_span);
    }
    let trait_generics = generics_analyzer.into_trait_generics();
    let mut out: Vec<Tok> = Vec::new();
    input_fn.write_tokens(&mut out);
    let ghost head = tv(out@);
    assert(head =~= input_fn.spec_tokens());
    match gen_trait_and_impl(attr, &trait_fns, &trait_generics, &fn_input_mode, &mut out) {
        Ok(()) => {},
        Err(e) => return Err(e),
    }
    Ok(out)
}

/// What `entrait` makes of a module: the module with the trait and its implementation added,
/// followed by a `use` of the trait.
pub open spec fn spec_mod(attr: EntraitFnAttr, md: InputMod, gen_span: Span) -> Result<Seq<TokV>, ErrV> {
    let ts = attr.trait_ident.span;
    match spec_analyze_all(no_generics(), pub_fns(md.items@), flag(attr.opts.no_deps), ImplReceiverKind::SelfRef, attr.crate_idents.entrait@, ts, gen_span) {
        Err(e) => Err(e),
        Ok((fns, g)) => match spec_mode(fns, InputModeV::Module, attr.crate_idents, ts) {
            Err(e) => Err(e),
            Ok(m) => Ok(
                tv(md.attrs@) + tv(md.vis.tokens@)
                    + seq![ident_v("mod"@, md.mod_span), ident_v(md.ident.name@, md.ident.span), open_v(Delimiter::Brace, gen_span)]
                    + mod_items_toks(md.items@)
                    + trait_and_impl(attr, fns, g, m, InputModeV::Module)
                    + seq![close_v(Delimiter::Brace, gen_span)]
                    + crate::trait_codegen::trait_visibility_toks(tv(attr.trait_visibility.tokens@), InputModeV::SingleFn, gen_span)
                    + seq![ident_v("use"@, gen_span), ident_v(md.ident.name@, md.ident.span)] + path_sep_v(gen_span)
                    + seq![ident_v(attr.trait_ident.name@, attr.trait_ident.span), punct_v(';', Spacing::Alone, gen_span)]
            ),
        },
    }
}

fn collect_pub_fns(items: &Vec<ModItem>) -> (r: Vec<&InputFn>)
    ensures
        r@.map_values(|f: &InputFn| *f) == pub_fns(items@),
{
    let mut r: Vec<&InputFn> = Vec::new();
    let mut i: usize = 0;
    assert(items@.take(0) =~= Seq::<ModItem>::empty());
    assert(r@.map_values(|f: &InputFn| *f) =~= Seq::<InputFn>::empty());
    while i < items.len()
        invariant
            i <= items@.len(),
            r@.map_values(|f: &InputFn| *f) == pub_fns(items@.take(i as int)),
        decreases items@.len() - i,
    {
        let ghost t = items@.take(i + 1);
        assert(t.drop_last() =~= items@.take(i as int));
        assert(t.last() == items@[i as int]);
        let ghost before = r@.map_values(|f: &InputFn| *f);
        match items[i].filter_pub_fn() {
            Some(f) => {
                r.push(f);
                assert(r@.map_values(|f: &InputFn| *f) =~= before.push(*f));
            },
            None => {},
        }
        i = i + 1;
    }
    assert(items@.take(items@.len() as int) =~= items@);
    r
}

/// `entrait` on a module: the module gets the trait of its functions that have a visibility.
pub fn entrait_for_mod(attr: &EntraitFnAttr, input_mod: &InputMod, gen_span: Span) -> (r: Result<Vec<Tok>, MacroError>)
    ensures
        match spec_mod(*attr, *input_mod, gen_span) {
            Ok(t) => r matches Ok(x) && tv(x@) == t,
            Err(e) => r matches Err(x) && x@ == e,
        },
{
    let fn_input_mode = FnInputMode::Module(&input_mod.ident);
    let mut generics_analyzer = GenericsAnalyzer::new();
    assert(generics_analyzer.trait_generics@.params =~= no_generics().params);
    assert(generics_analyzer.trait_generics@.preds =~= no_generics().preds);
    let fns = collect_pub_fns(&input_mod.items);
    let ghost ts = attr.trait_ident.span;
    let trait_fns = match analyze_all(&fns, &mut generics_analyzer, ImplReceiverKind::SelfRef, attr.trait_ident.span, gen_span, &attr.crate_idents, &attr.opts) {
        Ok(v) => v,
        Err(e) => return Err(e),
    };
    proof {
        lemma_analyzed_plain(no_generics(), pub_fns(input_mod.items@), flag(attr.opts.no_deps), ImplReceiverKind::SelfRef, attr.crate_idents.entrait@, ts, gen_span);
    }
    let trait_generics = generics_analyzer.into_trait_generics();
    proof {
        reveal_strlit("mod");
        reveal_strlit("use");
    }
    let mut head: Vec<Tok> = Vec::new();
    extend(&mut head, &input_mod.attrs);
    extend(&mut head, &input_mod.vis.tokens);
    push_ident(&mut head, "mod", input_mod.mod_span);
    push_tok(&mut head, ident_of(&input_mod.ident.name, input_mod.ident.span));
    push_open(&mut head, Delimiter::Brace, gen_span);
    let ghost h = tv(head@);
    assert(h =~= tv(input_mod.attrs@) + tv(input_mod.vis.tokens@)
        + seq![ident_v("mod"@, input_mod.mod_span), ident_v(input_mod.ident.name@, input_mod.ident.span), open_v(Delimiter::Brace, gen_span)]);
    let mut items: Vec<Tok> = Vec::new();
    write_mod_items(&mut items, &input_mod.items);
    let ghost it = tv(items@);
    assert(it =~= mod_items_toks(input_mod.items@));
    let mut inner: Vec<Tok> = Vec::new();
    match gen_trait_and_impl(attr, &trait_fns, &trait_generics, &fn_input_mode, &mut inner) {
        Ok(()) => {},
        Err(e) => return Err(e),
    }
    let ghost m = spec_mode(fns_view(trait_fns@), InputModeV::Module, attr.crate_idents, ts);
    let ghost inn = tv(inner@);
    assert(inn =~= trait_and_impl(*attr, fns_view(trait_fns@), trait_generics@, m->Ok_0, InputModeV::Module));
    let mut tail: Vec<Tok> = Vec::new();
    push_close(&mut tail, Delimiter::Brace, gen_span);
    extend(&mut tail, &attr.trait_visibility.tokens);
    push_ident(&mut tail, "use", gen_span);
    push_tok(&mut tail, ident_of(&input_mod.ident.name, input_mod.ident.span));
    push_path_sep(&mut tail, gen_span);
    push_tok(&mut tail, ident_of(&attr.trait_ident.name, attr.trait_ident.span));
    push_punct(&mut tail, ';', gen_span);
    let ghost tl = tv(tail@);
    assert(tl =~= seq![close_v(Delimiter::Brace, gen_span)]
        + crate::trait_codegen::trait_visibility_toks(tv(attr.trait_visibility.tokens@), InputModeV::SingleFn, gen_span)
        + seq![ident_v("use"@, gen_span), ident_v(input_mod.ident.name@, input_mod.ident.span)] + path_sep_v(gen_span)
        + seq![ident_v(attr.trait_ident.name@, attr.trait_ident.span), punct_v(';', Spacing::Alone, gen_span)]);
    let mut out = head;
    extend(&mut out, &items);
    extend(&mut out, &inner);
    extend(&mut out, &tail);
    assert(tv(out@) == ((h + it) + inn) + tl);
    assert(((h + it) + inn) + tl =~= spec_mod(*attr, *input_mod, gen_span)->Ok_0);
    Ok(out)
}

/// `entrait` never alters the function it is applied to: the output begins with the function
/// exactly as written, and everything generated follows it.
pub proof fn lemma_single_fn_append_only(attr: EntraitFnAttr, f: InputFn, gen_span: Span)
    ensures
        spec_single_fn(attr, f, gen_span) matches Ok(t) ==> {
            &&& f.spec_tokens().len() <= t.len()
            &&& t.take(f.spec_tokens().len() as int) == f.spec_tokens()
        },
{
    match spec_single_fn(attr, f, gen_span) {
        Ok(t) => {
            assert(t.take(f.spec_tokens().len() as int) =~= f.spec_tokens());
        },
        Err(_) => {},
    }
}

/// The header of a module as written: attributes, visibility, `mod`, its name and the
/// opening brace.
pub open spec fn mod_head(md: InputMod, gen_span: Span) -> Seq<TokV> {
    tv(md.attrs@) + tv(md.vis.tokens@)
        + seq![ident_v("mod"@, md.mod_span), ident_v(md.ident.name@, md.ident.span), open_v(Delimiter::Brace, gen_span)]
}

/// On a module, the module's header and all its items come back unchanged and in order; the
/// trait and its implementation follow the items inside the module.
pub proof fn lemma_mod_items_kept(attr: EntraitFnAttr, md: InputMod, gen_span: Span)
    ensures
        spec_mod(attr, md, gen_span) matches Ok(t) ==> {
            let h = mod_head(md, gen_span);
            let items = mod_items_toks(md.items@);
            &&& h.len() + items.len() <= t.len()
            &&& t.take(h.len() as int) == h
            &&& t.subrange(h.len() as int, (h.len() + items.len()) as int) == items
        },
{
    match spec_mod(attr, md, gen_span) {
        Ok(t) => {
            let h = mod_head(md, gen_span);
            let items = mod_items_toks(md.items@);
            assert(t.take(h.len() as int) =~= h);
            assert(t.subrange(h.len() as int, (h.len() + items.len()) as int) =~= items);
        },
        Err(_) => {},
    }
}


/// On a module whose trait was given no visibility, the trait defined inside the module is
/// declared `pub(super) trait Name`, so that the `use module::Name;` written after the module
/// can see it.
#[verifier::rlimit(40)]
pub proof fn lemma_mod_trait_is_pub_super(attr: EntraitFnAttr, md: InputMod, gen_span: Span)
    requires
        attr.trait_visibility.tokens@.len() == 0,
    ensures
        spec_mod(attr, md, gen_span) matches Ok(t) ==> exists|q: int| 0 <= q && q + 6 <= t.len()
            && #[trigger] t.subrange(q, q + 6) == seq![
                ident_v("pub"@, attr.trait_ident.span), open_v(Delimiter::Parenthesis, attr.trait_ident.span),
                ident_v("super"@, attr.trait_ident.span), close_v(Delimiter::Parenthesis, attr.trait_ident.span),
                ident_v("trait"@, attr.trait_ident.span), ident_v(attr.trait_ident.name@, attr.trait_ident.span)],
{
    let ts = attr.trait_ident.span;
    match spec_analyze_all(no_generics(), pub_fns(md.items@), flag(attr.opts.no_deps), ImplReceiverKind::SelfRef, attr.crate_idents.entrait@, ts, gen_span) {
        Err(_) => {},
        Ok((fns, g)) => match spec_mode(fns, InputModeV::Module, attr.crate_idents, ts) {
            Err(_) => {},
            Ok(m) => {
                let t = spec_mod(attr, md, gen_span)->Ok_0;
                let vis = tv(attr.trait_visibility.tokens@);
                assert(vis.len() == 0);
                crate::trait_codegen::lemma_trait_visibility(attr.opts, attr.crate_idents, TraitIndirection::Plain, m, Seq::empty(), false,
                    vis, attr.trait_ident@, g, Seq::empty(), Seq::empty(), fns, InputModeV::Module);
                let d = trait_def_spec(attr.opts, attr.crate_idents, TraitIndirection::Plain, m, Seq::empty(), false, vis,
                    attr.trait_ident@, g, Seq::empty(), Seq::empty(), fns, InputModeV::Module);
                let p = (crate::trait_codegen::unimock_attr_spec(attr.opts, attr.crate_idents, TraitIndirection::Plain, InputModeV::Module, fns, ts).len()
                    + crate::trait_codegen::entrait_attr_spec(attr.crate_idents, m, ts).len()
                    + crate::trait_codegen::mockall_attr_spec(attr.opts, ts).len()) as int;
                let trait_def_at = trait_def_spec(attr.opts, attr.crate_idents, TraitIndirection::Plain, m, Seq::empty(), false, vis,
                    attr.trait_ident@, g, Seq::empty(), Seq::empty(), fns, InputModeV::Module);
                crate::trait_codegen::lemma_trait_def_name(attr.opts, attr.crate_idents, TraitIndirection::Plain, m, Seq::empty(), false,
                    vis, attr.trait_ident@, g, Seq::empty(), Seq::empty(), fns, InputModeV::Module);
                let before = mod_head(md, gen_span) + mod_items_toks(md.items@);
                let q = before.len() + p;
                let tai = trait_and_impl(attr, fns, g, m, InputModeV::Module);
                let x = before + tai;
                assert(tai == d + impl_block_spec(attr.opts, seq![ident_v(attr.trait_ident.name@, attr.trait_ident.span)], ts, ImplIndirection::Direct, g, InputModeV::Module, m, spec_uaf(attr.opts, fns), Seq::empty(), fns));
                assert(t.subrange(0, x.len() as int) =~= x);
                assert(x.subrange(q, q + 6) =~= tai.subrange(p, p + 6));
                assert(tai.subrange(p, p + 6) =~= d.subrange(p, p + 6));
                assert(t.subrange(q, q + 6) =~= x.subrange(q, q + 6));
            },
        },
    }
}


/// Entrait on a single function with a concrete dependency: the generated trait carries
/// `#[::entrait::entrait(unimock = false, mockall = false)]`, so that `Impl<T>` gets its
/// delegating implementation as well.
#[verifier::rlimit(40)]
pub proof fn lemma_single_fn_concrete_trait_entraited(attr: EntraitFnAttr, f: InputFn, gen_span: Span)
    ensures
        ({
            let ts = attr.trait_ident.span;
            spec_single_fn(attr, f, gen_span) matches Ok(t) ==>
            (spec_analyze_all(no_generics(), seq![f], flag(attr.opts.no_deps), ImplReceiverKind::SelfRef, attr.crate_idents.entrait@, ts, gen_span) matches Ok((fns, g)) ==>
            (spec_mode(fns, InputModeV::SingleFn, attr.crate_idents, ts) matches Ok(ModeV::Concrete(_)) ==>
            exists|q: int| 0 <= q && q + 18 <= t.len()
                && #[trigger] t.subrange(q, q + 18) == crate::trait_codegen::entrait_no_mock_attr(attr.crate_idents, ts)))
        }),
{
    let ts = attr.trait_ident.span;
    match spec_analyze_all(no_generics(), seq![f], flag(attr.opts.no_deps), ImplReceiverKind::SelfRef, attr.crate_idents.entrait@, ts, gen_span) {
        Err(_) => {},
        Ok((fns, g)) => match spec_mode(fns, InputModeV::SingleFn, attr.crate_idents, ts) {
            Ok(ModeV::Concrete(ty)) => {
                let m = ModeV::Concrete(ty);
                let t = spec_single_fn(attr, f, gen_span)->Ok_0;
                let vis = tv(attr.trait_visibility.tokens@);
                crate::trait_codegen::lemma_trait_def_split(attr.opts, attr.crate_idents, TraitIndirection::Plain, m, Seq::empty(), false,
                    vis, attr.trait_ident@, g, Seq::empty(), Seq::empty(), fns, InputModeV::SingleFn);
                let d = trait_def_spec(attr.opts, attr.crate_idents, TraitIndirection::Plain, m, Seq::empty(), false, vis,
                    attr.trait_ident@, g, Seq::empty(), Seq::empty(), fns, InputModeV::SingleFn);
                let um = crate::trait_codegen::unimock_attr_spec(attr.opts, attr.crate_idents, TraitIndirection::Plain, InputModeV::SingleFn, fns, ts);
                let ea = crate::trait_codegen::entrait_attr_spec(attr.crate_idents, m, ts);
                assert(ea =~= crate::trait_codegen::entrait_no_mock_attr(attr.crate_idents, ts));
                let p = um.len() as int;
                assert(d.subrange(p, p + 18) =~= ea);
                let tai = trait_and_impl(attr, fns, g, m, InputModeV::SingleFn);
                assert(tai == d + impl_block_spec(attr.opts, seq![ident_v(attr.trait_ident.name@, attr.trait_ident.span)], ts, ImplIndirection::Direct, g, InputModeV::SingleFn, m, spec_uaf(attr.opts, fns), Seq::empty(), fns));
                let before = f.spec_tokens();
                assert(t == before + tai);
                let q = before.len() + p;
                assert(t.subrange(q, q + 18) =~= tai.subrange(p, p + 18));
                assert(tai.subrange(p, p + 18) =~= d.subrange(p, p + 18));
                assert(q + 18 <= t.len());
                assert(t.subrange(q, q + 18) == crate::trait_codegen::entrait_no_mock_attr(attr.crate_idents, ts));
            },
            _ => {},
        },
    }
}

} // verus!
