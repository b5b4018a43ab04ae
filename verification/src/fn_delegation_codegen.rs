//! Writes the implementation of a generated trait that calls the original functions.

use vstd::prelude::*;
use proc_macro2::Span;
use crate::analyze_generics::{FnDeps, TraitGenerics};
use crate::attributes::ident_args;
use crate::converter::typed_args_plain;
use crate::generics::{
    ImplIndirection, UseAssociatedFuture, any_self_by_value, arguments_toks, has_any_self_by_value, impl_path_g,
    impl_where_toks, params_gen_toks,
};
use crate::idents::CrateIdents;
use crate::model::{FnArg, FnArgV, PatModel, TypeModel, args_view, params_view, preds_view};
use crate::opt::{Mockable, Opts};
use crate::render::{comma, push_sig, push_type, sig_toks, type_toks};
use crate::sub_attributes::SubAttribute;
use crate::tokens::{
    Delimiter, Spacing, Tok, TokV, tv, ident_v, punct_v, open_v, close_v, path_sep_v, join, items_view, extend, push_tok,
    push_ident, push_punct, push_path_sep, push_open, push_close, push_joined, ident_of, punct_vec, lemma_add_assoc, lemma_push_add,
};
use crate::trait_fn::{FnInputMode, TraitDependencyMode, TraitFn, TraitFnV, fns_view, ModeV, mode_view, generic_view, dot_await, InputModeV, input_mode_view};
use crate::attributes::ident_arg_items;
use crate::analyze_generics::{FnDepsV, TraitGenericsV};
use crate::model::IdentV;

verus! {

/// The type the trait is implemented for: `Impl<EntraitT>` for a generic dependency, the type
/// of an impl block, or the concrete dependency.
pub open spec fn self_ty_toks(mode: ModeV, indirection: ImplIndirection, span: Span) -> Seq<TokV> {
    match mode {
        ModeV::Generic(g) => match indirection {
            ImplIndirection::Direct => impl_path_g(g, span),
            ImplIndirection::Static { ty } => type_toks(ty@),
            ImplIndirection::Dynamic { ty } => type_toks(ty@),
        },
        ModeV::Concrete(ty) => type_toks(ty),
    }
}

/// `self,` before the arguments, when the call passes the implementation on.
pub open spec fn self_comma_toks(f: TraitFnV, indirect: bool, span: Span) -> Seq<TokV> {
    if f.deps is NoDeps || f.sig.inputs.len() == 0 || indirect {
        Seq::empty()
    } else {
        seq![ident_v("self"@, span), punct_v(',', Spacing::Alone, span)]
    }
}

/// The method of the implementation: the trait method's signature, and a body that calls the
/// function with the same name.
#[verifier::opaque]
pub open spec fn delegating_fn_toks(f: TraitFnV, span: Span, scoping: Seq<TokV>, indirect: bool) -> Seq<TokV> {
    sig_toks(f.sig)
        + seq![open_v(Delimiter::Brace, span)]
        + scoping
        + seq![ident_v(f.sig.ident, span), open_v(Delimiter::Parenthesis, span)]
        + self_comma_toks(f, indirect, span)
        + join(ident_args(f.sig.inputs), comma(span))
        + seq![close_v(Delimiter::Parenthesis, span)]
        + (if f.originally_async { dot_await(span) } else { Seq::empty() })
        + seq![close_v(Delimiter::Brace, span)]
}

pub open spec fn delegating_fns_toks(fns: Seq<TraitFnV>, span: Span, scoping: Seq<TokV>, indirect: bool) -> Seq<TokV>
    decreases fns.len(),
{
    if fns.len() == 0 {
        Seq::empty()
    } else {
        delegating_fns_toks(fns.drop_last(), span, scoping, indirect) + delegating_fn_toks(fns.last(), span, scoping, indirect)
    }
}

/// The attributes of the implementation that come from under `entrait`: async-trait only.
pub open spec fn impl_level_subs(subs: Seq<SubAttribute>) -> Seq<TokV>
    decreases subs.len(),
{
    if subs.len() == 0 {
        Seq::empty()
    } else {
        impl_level_subs(subs.drop_last()) + if subs.last() is AsyncTrait { tv(subs.last().tokens()@) } else { Seq::empty() }
    }
}

pub fn push_impl_level_subs(out: &mut Vec<Tok>, subs: &Vec<SubAttribute>)
    ensures
        tv(final(out)@) == tv(old(out)@) + impl_level_subs(subs@),
{
    let ghost base = tv(out@);
    let mut i: usize = 0;
    assert(subs@.take(0) =~= Seq::<SubAttribute>::empty());
    while i < subs.len()
        invariant
            i <= subs@.len(),
            tv(out@) == base + impl_level_subs(subs@.take(i as int)),
        decreases subs@.len() - i,
    {
        let ghost t = subs@.take(i + 1);
        assert(t.drop_last() =~= subs@.take(i as int));
        assert(t.last() == subs@[i as int]);
        match &subs[i] {
            SubAttribute::AsyncTrait(_) => {
                subs[i].write_tokens(out);
                assert(tv(out@) =~= base + impl_level_subs(t));
            },
            _ => {
                assert(tv(out@) =~= base + impl_level_subs(t));
            },
        }
        i = i + 1;
    }
    assert(subs@.take(subs@.len() as int) =~= subs@);
}

/// Generates implementations that call standalone functions.
pub struct FnDelegationCodegen<'s> {
    pub opts: &'s Opts,
    pub crate_idents: &'s CrateIdents,
    /// The trait implemented, as written.
    pub trait_ref: &'s Vec<Tok>,
    pub trait_span: Span,
    pub impl_indirection: ImplIndirection<'s>,
    pub trait_generics: &'s TraitGenerics,
    pub fn_input_mode: &'s FnInputMode<'s>,
    pub trait_dependency_mode: &'s TraitDependencyMode<'s>,
    pub use_associated_future: UseAssociatedFuture,
    pub sub_attributes: &'s Vec<SubAttribute<'s>>,
}

/// `Self::` in front of the calls of an impl block's functions.
pub open spec fn self_scoping(mode: InputModeV) -> Seq<TokV> {
    match mode {
        InputModeV::ImplBlock(sp) => seq![ident_v("Self"@, sp)] + path_sep_v(sp),
        _ => Seq::empty(),
    }
}

pub open spec fn all_fns_plain(fns: Seq<TraitFnV>) -> bool {
    forall|i: int| 0 <= i < fns.len() ==> typed_args_plain(#[trigger] fns[i].sig.inputs)
}

/// The implementation block: `impl<..> Trait<..> for Type where .. { methods }`.
pub open spec fn impl_block_spec(
    opts: Opts,
    trait_ref: Seq<TokV>,
    span: Span,
    indirection: ImplIndirection,
    tg: TraitGenericsV,
    input_mode: InputModeV,
    mode: ModeV,
    uaf: bool,
    sub_attrs: Seq<TokV>,
    fns: Seq<TraitFnV>,
) -> Seq<TokV> {
    let impl_t = match mode {
        ModeV::Generic(g) => Some(g.impl_t),
        ModeV::Concrete(_) => None,
    };
    let indirect = indirection.is_indirect();
    sub_attrs
        + seq![ident_v("impl"@, span)]
        + params_gen_toks(tg.params, impl_t, uaf, any_self_by_value(fns), span)
        + trait_ref
        + arguments_toks(tg.params, indirect, span)
        + seq![ident_v("for"@, span)]
        + self_ty_toks(mode, indirection, span)
        + impl_where_toks(tg.preds, mode, indirect, fns, span)
        + seq![open_v(Delimiter::Brace, span)]
        + delegating_fns_toks(fns, span, self_scoping(input_mode), indirect)
        + seq![close_v(Delimiter::Brace, span)]
}

impl<'s> FnDelegationCodegen<'s> {
    pub open spec fn impl_block_toks(&self, fns: Seq<TraitFnV>) -> Seq<TokV> {
        impl_block_spec(
            *self.opts,
            tv(self.trait_ref@),
            self.trait_span,
            self.impl_indirection,
            self.trait_generics@,
            input_mode_view(*self.fn_input_mode),
            mode_view(*self.trait_dependency_mode),
            self.use_associated_future.0,
            impl_level_subs(self.sub_attributes@),
            fns,
        )
    }

    fn push_self_ty(&self, out: &mut Vec<Tok>)
        ensures
            tv(final(out)@) == tv(old(out)@) + self_ty_toks(mode_view(*self.trait_dependency_mode), self.impl_indirection, self.trait_span),
    {
        let ghost base = tv(out@);
        match self.trait_dependency_mode {
            TraitDependencyMode::Generic(g) => match &self.impl_indirection {
                ImplIndirection::Direct => g.impl_path(out, self.trait_span),
                ImplIndirection::Static { ty } => push_type(out, ty),
                ImplIndirection::Dynamic { ty } => push_type(out, ty),
            },
            TraitDependencyMode::Concrete(ty) => push_type(out, ty),
        }
    }

    /// The method that calls the entraited function.
    fn gen_delegating_fn_item(&self, out: &mut Vec<Tok>, trait_fn: &TraitFn, span: Span, scoping: &Vec<Tok>)
        ensures
            tv(final(out)@) == tv(old(out)@) + delegating_fn_toks(trait_fn@, span, tv(scoping@), self.impl_indirection.is_indirect()),
    {
        let ghost base = tv(out@);
        proof { reveal_strlit("self"); }
        let sig = trait_fn.sig();
        let ghost indirect_s = self.impl_indirection.is_indirect();
        let ghost b0 = sig_toks(sig@);
        push_sig(out, sig);
        push_open(out, Delimiter::Brace, span);
        proof { lemma_push_add(base, b0, open_v(Delimiter::Brace, span)); }
        let ghost b1 = b0 + seq![open_v(Delimiter::Brace, span)];
        extend(out, scoping);
        proof { lemma_add_assoc(base, b1, tv(scoping@)); }
        let ghost b2 = b1 + tv(scoping@);
        let mut head: Vec<Tok> = Vec::new();
        push_tok(&mut head, ident_of(&sig.ident, span));
        push_open(&mut head, Delimiter::Parenthesis, span);
        assert(tv(head@) =~= seq![ident_v(sig.ident@, span), open_v(Delimiter::Parenthesis, span)]);
        extend(out, &head);
        proof { lemma_add_assoc(base, b2, tv(head@)); }
        let ghost b3 = b2 + tv(head@);
        let indirect = match &self.impl_indirection {
            ImplIndirection::Direct => false,
            _ => true,
        };
        let no_deps = match &trait_fn.deps {
            FnDeps::NoDeps => true,
            _ => false,
        };
        let mut sc: Vec<Tok> = Vec::new();
        if !(no_deps || sig.inputs.len() == 0 || indirect) {
            push_ident(&mut sc, "self", span);
            push_punct(&mut sc, ',', span);
        }
        assert(tv(sc@) =~= self_comma_toks(trait_fn@, indirect_s, span));
        extend(out, &sc);
        proof { lemma_add_assoc(base, b3, tv(sc@)); }
        let ghost b4 = b3 + tv(sc@);
        let args = ident_arg_items(&sig.inputs);
        let ghost j = join(ident_args(args_view(sig.inputs@)), comma(span));
        push_joined(out, &args, punct_vec(',', span));
        proof { lemma_add_assoc(base, b4, j); }
        let ghost b5 = b4 + j;
        push_close(out, Delimiter::Parenthesis, span);
        proof { lemma_push_add(base, b5, close_v(Delimiter::Parenthesis, span)); }
        let ghost b6 = b5 + seq![close_v(Delimiter::Parenthesis, span)];
        let dot_await = trait_fn.opt_dot_await(span);
        extend(out, &dot_await);
        proof { lemma_add_assoc(base, b6, tv(dot_await@)); }
        let ghost b7 = b6 + tv(dot_await@);
        push_close(out, Delimiter::Brace, span);
        proof {
            lemma_push_add(base, b7, close_v(Delimiter::Brace, span));
            reveal(delegating_fn_toks);
        }
        assert(b7 + seq![close_v(Delimiter::Brace, span)] == delegating_fn_toks(trait_fn@, span, tv(scoping@), indirect_s));
    }

    /// Writes the implementation block.
    pub fn gen_impl_block(&self, trait_fns: &Vec<TraitFn>) -> (r: Vec<Tok>)
        requires
            all_fns_plain(fns_view(trait_fns@)),
        ensures
            tv(r@) == self.impl_block_toks(fns_view(trait_fns@)),
    {
        let span = self.trait_span;
        let mut out: Vec<Tok> = Vec::new();
        proof {
            reveal_strlit("impl");
            reveal_strlit("for");
            reveal_strlit("Self");
        }
        let ghost impl_t = match mode_view(*self.trait_dependency_mode) {
            ModeV::Generic(g) => Some(g.impl_t),
            ModeV::Concrete(_) => None,
        };
        let ghost fv = fns_view(trait_fns@);
        let ghost indirect = self.impl_indirection.is_indirect();
        push_impl_level_subs(&mut out, self.sub_attributes);
        let ghost b0 = tv(out@);
        assert(b0 =~= impl_level_subs(self.sub_attributes@));
        push_ident(&mut out, "impl", span);
        proof { lemma_push_add(Seq::empty(), b0, ident_v("impl"@, span)); }
        let ghost b1 = b0 + seq![ident_v("impl"@, span)];
        assert(tv(out@) =~= b1);
        let tsbv = has_any_self_by_value(trait_fns);
        self.trait_generics.impl_params(&mut out, self.trait_dependency_mode, self.use_associated_future, tsbv, span);
        let ghost b2 = b1 + params_gen_toks(params_view(self.trait_generics.params@), impl_t, self.use_associated_future.0, any_self_by_value(fv), span);
        assert(tv(out@) == b2);
        extend(&mut out, self.trait_ref);
        let ghost b3 = b2 + tv(self.trait_ref@);
        self.trait_generics.arguments(&mut out, &self.impl_indirection, span);
        let ghost b4 = b3 + arguments_toks(params_view(self.trait_generics.params@), indirect, span);
        push_ident(&mut out, "for", span);
        proof { lemma_push_add(Seq::empty(), b4, ident_v("for"@, span)); }
        let ghost b5 = b4 + seq![ident_v("for"@, span)];
        assert(tv(out@) =~= b5);
        self.push_self_ty(&mut out);
        let ghost b6 = b5 + self_ty_toks(mode_view(*self.trait_dependency_mode), self.impl_indirection, span);
        self.trait_generics.impl_where_clause(&mut out, trait_fns, self.trait_dependency_mode, &self.impl_indirection, span);
        let ghost b7 = b6 + impl_where_toks(preds_view(self.trait_generics.where_predicates@), mode_view(*self.trait_dependency_mode), indirect, fv, span);
        push_open(&mut out, Delimiter::Brace, span);
        proof { lemma_push_add(Seq::empty(), b7, open_v(Delimiter::Brace, span)); }
        let ghost b8 = b7 + seq![open_v(Delimiter::Brace, span)];
        assert(tv(out@) =~= b8);

        let mut scoping: Vec<Tok> = Vec::new();
        match self.fn_input_mode {
            FnInputMode::ImplBlock(ty) => {
                push_ident(&mut scoping, "Self", ty.span);
                push_path_sep(&mut scoping, ty.span);
            },
            _ => {},
        }
        assert(tv(scoping@) =~= self_scoping(input_mode_view(*self.fn_input_mode)));
        let mut i: usize = 0;
        assert(fv.take(0) =~= Seq::<TraitFnV>::empty());
        assert(tv(out@) =~= b8 + delegating_fns_toks(fv.take(0), span, tv(scoping@), indirect));
        while i < trait_fns.len()
            invariant
                i <= trait_fns@.len(),
                fv == fns_view(trait_fns@),
                indirect == self.impl_indirection.is_indirect(),
                span == self.trait_span,
                tv(out@) == b8 + delegating_fns_toks(fv.take(i as int), span, tv(scoping@), indirect),
            decreases trait_fns@.len() - i,
        {
            let ghost t = fv.take(i + 1);
            assert(t.drop_last() =~= fv.take(i as int));
            assert(t.last() == trait_fns@[i as int]@);
            let ghost before = delegating_fns_toks(fv.take(i as int), span, tv(scoping@), indirect);
            self.gen_delegating_fn_item(&mut out, &trait_fns[i], span, &scoping);
            proof {
                lemma_add_assoc(b8, before, delegating_fn_toks(trait_fns@[i as int]@, span, tv(scoping@), indirect));
            }
            i = i + 1;
        }
        assert(fv.take(trait_fns@.len() as int) =~= fv);
        let ghost b9 = b8 + delegating_fns_toks(fv, span, tv(scoping@), indirect);
        push_close(&mut out, Delimiter::Brace, span);
        proof { lemma_push_add(Seq::empty(), b9, close_v(Delimiter::Brace, span)); }
        assert(tv(out@) =~= b9 + seq![close_v(Delimiter::Brace, span)]);
        out
    }
}

} // verus!
