//! `entrait` on an impl block: the block becomes inherent, and the implementation trait of an
//! entraited trait is implemented by calling its functions.

use vstd::prelude::*;
use proc_macro2::Span;
use crate::analyze_generics::{GenericsAnalyzer, TraitGenericsV};
use crate::entrait_fn::{analyze_all, lemma_analyzed_plain, no_generics, spec_analyze_all};
use crate::error::{ErrV, MacroError};
use crate::fn_delegation_codegen::{FnDelegationCodegen, impl_block_spec};
use crate::generics::{ImplIndirection, UseAssociatedFuture};
use crate::input::{ImplItem, InputFn, InputImpl, impl_fns, impl_items_toks, write_impl_items};
use crate::input_attr::{EntraitSimpleImplAttr, ImplKind};
use crate::opt::flag;
use crate::render::{push_type, type_toks};
use crate::signature::ImplReceiverKind;
use crate::sub_attributes::{SubAttribute, analyze_sub_attributes, impl_level_attrs, inherent_attrs, sub_kind, SubKind};
use crate::tokens::{Delimiter, Tok, TokV, tv, ident_v, open_v, close_v, extend, push_ident, push_open, push_close, lemma_add_assoc};
use crate::trait_fn::{FnInputMode, InputModeV, detect_trait_dependency_mode, fns_view, spec_mode};

verus! {

pub open spec fn receiver_kind(k: ImplKind) -> ImplReceiverKind {
    match k {
        ImplKind::Static => ImplReceiverKind::StaticImpl,
        ImplKind::DynRef => ImplReceiverKind::DynamicImpl,
    }
}

/// What `entrait` makes of an impl block: the block as an inherent impl, without its
/// async-trait attributes, and the implementation of the trait that calls its functions.
pub open spec fn spec_impl_output(attr: EntraitSimpleImplAttr, input: InputImpl, gen_span: Span) -> Result<Seq<TokV>, ErrV> {
    let ts = input.trait_span;
    match spec_analyze_all(no_generics(), impl_fns(input.items@), flag(attr.opts.no_deps), receiver_kind(attr.impl_kind), attr.crate_idents.entrait@, ts, gen_span) {
        Err(e) => Err(e),
        Ok((fns, g)) => match spec_mode(fns, InputModeV::ImplBlock(input.self_ty.span), attr.crate_idents, ts) {
            Err(e) => Err(e),
            Ok(m) => Ok(
                inherent_attrs(input.attrs@)
                    + (match input.unsafety { Some(sp) => seq![ident_v("unsafe"@, sp)], None => Seq::empty() })
                    + seq![ident_v("impl"@, input.impl_span)]
                    + type_toks(input.self_ty@)
                    + seq![open_v(Delimiter::Brace, gen_span)]
                    + impl_items_toks(input.items@)
                    + seq![close_v(Delimiter::Brace, gen_span)]
                    + impl_block_spec(
                        attr.opts,
                        tv(input.trait_path@),
                        ts,
                        match attr.impl_kind {
                            ImplKind::Static => ImplIndirection::Static { ty: &input.self_ty },
                            ImplKind::DynRef => ImplIndirection::Dynamic { ty: &input.self_ty },
                        },
                        g,
                        InputModeV::ImplBlock(input.self_ty.span),
                        m,
                        false,
                        impl_level_attrs(input.attrs@),
                        fns,
                    )
            ),
        },
    }
}

fn collect_impl_fns(items: &Vec<ImplItem>) -> (r: Vec<&InputFn>)
    ensures
        r@.map_values(|f: &InputFn| *f) == impl_fns(items@),
{
    let mut r: Vec<&InputFn> = Vec::new();
    let mut i: usize = 0;
    assert(items@.take(0) =~= Seq::<ImplItem>::empty());
    assert(r@.map_values(|f: &InputFn| *f) =~= Seq::<InputFn>::empty());
    while i < items.len()
        invariant
            i <= items@.len(),
            r@.map_values(|f: &InputFn| *f) == impl_fns(items@.take(i as int)),
        decreases items@.len() - i,
    {
        let ghost t = items@.take(i + 1);
        assert(t.drop_last() =~= items@.take(i as int));
        assert(t.last() == items@[i as int]);
        let ghost before = r@.map_values(|f: &InputFn| *f);
        match items[i].filter_fn() {
            Some(f) => {
                r.push(f);
                assert(r@.map_values(|f: &InputFn| *f) =~= before.push(*f));
            },
            None => {},
        }
        i = i + 1;
    }
    assert(items@.take(items@.len() as int) =~= items@);
    r
}

/// Writes the attributes that are not async-trait.
fn write_inherent_attrs(out: &mut Vec<Tok>, attrs: &Vec<Vec<Tok>>)
    ensures
        tv(final(out)@) == tv(old(out)@) + inherent_attrs(attrs@),
{
    let ghost base = tv(out@);
    let mut i: usize = 0;
    assert(attrs@.take(0) =~= Seq::<Vec<Tok>>::empty());
    assert(tv(out@) =~= base + inherent_attrs(attrs@.take(0)));
    while i < attrs.len()
        invariant
            i <= attrs@.len(),
            tv(out@) == base + inherent_attrs(attrs@.take(i as int)),
        decreases attrs@.len() - i,
    {
        let ghost t = attrs@.take(i + 1);
        assert(t.drop_last() =~= attrs@.take(i as int));
        assert(t.last() == attrs@[i as int]);
        if crate::sub_attributes::sub_kind_of(&attrs[i]) != SubKind::AsyncTrait {
            extend(out, &attrs[i]);
            assert(tv(out@) =~= base + inherent_attrs(t));
        } else {
            assert(tv(out@) =~= base + inherent_attrs(t));
        }
        i = i + 1;
    }
    assert(attrs@.take(attrs@.len() as int) =~= attrs@);
}

/// `entrait` on an impl block.
pub fn output_tokens_for_impl(attr: &EntraitSimpleImplAttr, input: &InputImpl, gen_span: Span) -> (r: Result<Vec<Tok>, MacroError>)
    ensures
        match spec_impl_output(*attr, *input, gen_span) {
            Ok(t) => r matches Ok(x) && tv(x@) == t,
            Err(e) => r matches Err(x) && x@ == e,
        },
{
    let trait_span = input.trait_span;
    let kind = match attr.impl_kind {
        ImplKind::Static => ImplReceiverKind::StaticImpl,
        ImplKind::DynRef => ImplReceiverKind::DynamicImpl,
    };
    let mut generics_analyzer = GenericsAnalyzer::new();
    assert(generics_analyzer.trait_generics@.params =~= no_generics().params);
    assert(generics_analyzer.trait_generics@.preds =~= no_generics().preds);
    let fns = collect_impl_fns(&input.items);
    let trait_fns = match analyze_all(&fns, &mut generics_analyzer, kind, trait_span, gen_span, &attr.crate_idents, &attr.opts) {
        Ok(v) => v,
        Err(e) => return Err(e),
    };
    proof {
        lemma_analyzed_plain(no_generics(), impl_fns(input.items@), flag(attr.opts.no_deps), kind, attr.crate_idents.entrait@, trait_span, gen_span);
    }
    let sub_attributes = analyze_sub_attributes(&input.attrs);
    let trait_generics = generics_analyzer.into_trait_generics();
    let fn_input_mode = FnInputMode::ImplBlock(&input.self_ty);
    let trait_dependency_mode = match detect_trait_dependency_mode(&fn_input_mode, &trait_fns, &attr.crate_idents, trait_span) {
        Ok(m) => m,
        Err(e) => return Err(e),
    };
    let impl_indirection = match attr.impl_kind {
        ImplKind::Static => ImplIndirection::Static { ty: &input.self_ty },
        ImplKind::DynRef => ImplIndirection::Dynamic { ty: &input.self_ty },
    };
    let codegen = FnDelegationCodegen {
        opts: &attr.opts,
        crate_idents: &attr.crate_idents,
        trait_ref: &input.trait_path,
        trait_span,
        impl_indirection,
        trait_generics: &trait_generics,
        fn_input_mode: &fn_input_mode,
        trait_dependency_mode: &trait_dependency_mode,
        use_associated_future: UseAssociatedFuture(false),
        sub_attributes: &sub_attributes,
    };
    let impl_block = codegen.gen_impl_block(&trait_fns);

    proof {
        reveal_strlit("unsafe");
        reveal_strlit("impl");
    }
    let mut head: Vec<Tok> = Vec::new();
    write_inherent_attrs(&mut head, &input.attrs);
    match input.unsafety {
        Some(sp) => push_ident(&mut head, "unsafe", sp),
        None => {},
    }
    push_ident(&mut head, "impl", input.impl_span);
    push_type(&mut head, &input.self_ty);
    push_open(&mut head, Delimiter::Brace, gen_span);
    let ghost h = tv(head@);
    assert(h =~= inherent_attrs(input.attrs@)
        + (match input.unsafety { Some(sp) => seq![ident_v("unsafe"@, sp)], None => Seq::empty() })
        + seq![ident_v("impl"@, input.impl_span)]
        + type_toks(input.self_ty@)
        + seq![open_v(Delimiter::Brace, gen_span)]);
    let mut out = head;
    write_impl_items(&mut out, &input.items);
    push_close(&mut out, Delimiter::Brace, gen_span);
    let ghost a = tv(out@);
    extend(&mut out, &impl_block);
    Ok(out)
}

/// The header of the inherent impl block that keeps the items: the attributes that stay on
/// it, `unsafe` if given, `impl`, the type and the opening brace.
pub open spec fn inherent_head(input: InputImpl, gen_span: Span) -> Seq<TokV> {
    inherent_attrs(input.attrs@)
        + (match input.unsafety { Some(sp) => seq![ident_v("unsafe"@, sp)], None => Seq::empty() })
        + seq![ident_v("impl"@, input.impl_span)]
        + type_toks(input.self_ty@)
        + seq![open_v(Delimiter::Brace, gen_span)]
}

/// On an impl block, every item comes back unchanged and in order, in an inherent impl block
/// for the same type; the trait implementation follows it.
pub proof fn lemma_impl_items_kept(attr: EntraitSimpleImplAttr, input: InputImpl, gen_span: Span)
    ensures
        spec_impl_output(attr, input, gen_span) matches Ok(t) ==> {
            let h = inherent_head(input, gen_span);
            let items = impl_items_toks(input.items@);
            &&& h.len() + items.len() <= t.len()
            &&& t.take(h.len() as int) == h
            &&& t.subrange(h.len() as int, (h.len() + items.len()) as int) == items
        },
{
    match spec_impl_output(attr, input, gen_span) {
        Ok(t) => {
            let h = inherent_head(input, gen_span);
            let items = impl_items_toks(input.items@);
            assert(t.take(h.len() as int) =~= h);
            assert(t.subrange(h.len() as int, (h.len() + items.len()) as int) =~= items);
        },
        Err(_) => {},
    }
}

} // verus!
