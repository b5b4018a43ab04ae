//! The methods of a generated trait, and how the trait finds its implementation.

use vstd::prelude::*;
use proc_macro2::Span;
use crate::analyze_generics::{FnDeps, FnDepsV, GenericsAnalyzer, TraitGenericsV, spec_analyze_fn_deps};
use crate::converter::{convert_fn_to_trait_fn, converted_sig, rewrites_receiver, receiver_generation};
use crate::error::{ErrV, MacroError};
use crate::idents::{CrateIdents, GenericIdents};
use crate::model::{Ident, Signature, SigV, TypeModel, TypeV, FnArg, args_view};
use crate::opt::{Opts, flag};
use crate::signature::{EntraitSignature, ImplReceiverKind};
use crate::tokens::{Tok, TokV, tv, ident_v, punct_v, Spacing, push_punct, push_ident};
use crate::attr_parse::err_at;

verus! {

/// A method of the generated trait.
pub struct TraitFn {
    pub deps: FnDeps,
    pub attrs: Vec<Tok>,
    pub entrait_sig: EntraitSignature,
    pub originally_async: bool,
}

/// A method with its parts seen as values.
pub struct TraitFnV {
    pub deps: FnDepsV,
    pub attrs: Seq<TokV>,
    pub sig: SigV,
    pub originally_async: bool,
}

impl View for TraitFn {
    type V = TraitFnV;

    open spec fn view(&self) -> TraitFnV {
        TraitFnV { deps: self.deps@, attrs: tv(self.attrs@), sig: self.entrait_sig.sig@, originally_async: self.originally_async }
    }
}

pub open spec fn fns_view(s: Seq<TraitFn>) -> Seq<TraitFnV> {
    s.map_values(|f: TraitFn| f@)
}

impl TraitFn {
    /// A copy with the same view; the gathered lifetimes are not copied.
    pub fn duplicate(&self) -> (r: TraitFn)
        ensures
            r@ == self@,
    {
        TraitFn {
            deps: self.deps.duplicate(),
            attrs: crate::model::dup_toks(&self.attrs),
            entrait_sig: EntraitSignature::new(self.entrait_sig.sig.duplicate()),
            originally_async: self.originally_async,
        }
    }
}

/// `.await`
pub open spec fn dot_await(span: Span) -> Seq<TokV> {
    seq![punct_v('.', Spacing::Alone, span), ident_v("await"@, span)]
}

impl TraitFn {
    pub fn sig(&self) -> (r: &Signature)
        ensures
            *r == self.entrait_sig.sig,
    {
        &self.entrait_sig.sig
    }

    /// `.await` after a call of an `async fn`, nothing otherwise.
    pub fn opt_dot_await(&self, span: Span) -> (r: Vec<Tok>)
        ensures
            tv(r@) == (if self.originally_async { dot_await(span) } else { Seq::empty() }),
    {
        let mut r: Vec<Tok> = Vec::new();
        if self.originally_async {
            push_punct(&mut r, '.', span);
            push_ident(&mut r, "await", span);
            proof { reveal_strlit("await"); }
            assert(tv(r@) =~= dot_await(span));
        } else {
            assert(tv(r@) =~= Seq::<TokV>::empty());
        }
        r
    }
}

/// Analyzes the functions of one trait.
pub struct TraitFnAnalyzer<'s> {
    pub impl_receiver_kind: ImplReceiverKind,
    pub trait_span: Span,
    /// Where generated parameter names are located.
    pub gen_span: Span,
    pub crate_idents: &'s CrateIdents,
    pub opts: &'s Opts,
}

/// The method made from a function: its dependency and signature, with the generics gathered
/// so far.
pub open spec fn spec_analyze(
    acc: TraitGenericsV,
    sig: Signature,
    no_deps: bool,
    kind: ImplReceiverKind,
    entrait: crate::model::IdentV,
    trait_span: Span,
    gen_span: Span,
) -> Result<(FnDepsV, SigV, TraitGenericsV), ErrV> {
    match spec_analyze_fn_deps(acc, sig, no_deps) {
        Ok((d, g)) => Ok((d, converted_sig(sig@, d, kind, entrait, trait_span, gen_span), g)),
        Err(e) => Err(e),
    }
}

impl<'s> TraitFnAnalyzer<'s> {
    pub fn analyze(self, sig: &Signature, analyzer: &mut GenericsAnalyzer) -> (r: Result<TraitFn, MacroError>)
        ensures
            match spec_analyze(old(analyzer).trait_generics@, *sig, flag(self.opts.no_deps), self.impl_receiver_kind, self.crate_idents.entrait@, self.trait_span, self.gen_span) {
                Ok((d, s, g)) => r matches Ok(tf) && tf.deps@ == d && tf.entrait_sig.sig@ == s
                    && final(analyzer).trait_generics@ == g
                    && tf.attrs@.len() == 0 && tf.entrait_sig.et_lifetimes@.len() == 0
                    && tf.originally_async == sig.asyncness,
                Err(e) => r matches Err(x) && x@ == e,
            },
    {
        let deps = match analyzer.analyze_fn_deps(sig, self.opts) {
            Ok(d) => d,
            Err(e) => return Err(e),
        };
        proof {
            if sig.inputs@.len() > 0 {
                assert(args_view(sig.inputs@)[0] == sig.inputs@[0]@);
            }
        }
        assert(!rewrites_receiver(sig@, deps@));
        let entrait_sig = convert_fn_to_trait_fn(sig.duplicate(), &deps, self.impl_receiver_kind, &self.crate_idents.entrait, self.trait_span, self.gen_span);
        Ok(TraitFn { deps, attrs: Vec::new(), entrait_sig, originally_async: sig.asyncness })
    }
}

/// What the macro was applied to, for the functions it makes a trait of.
pub enum FnInputMode<'a> {
    SingleFn(&'a Ident),
    Module(&'a Ident),
    ImplBlock(&'a TypeModel),
    /// A trait, with its attributes.
    RawTrait(&'a Vec<Tok>),
}

/// What the macro was applied to, as far as the generated code depends on it.
pub enum InputModeV {
    SingleFn,
    Module,
    /// With the span of the implemented type.
    ImplBlock(Span),
    RawTrait,
}

pub open spec fn input_mode_view(m: FnInputMode) -> InputModeV {
    match m {
        FnInputMode::SingleFn(_) => InputModeV::SingleFn,
        FnInputMode::Module(_) => InputModeV::Module,
        FnInputMode::ImplBlock(ty) => InputModeV::ImplBlock(ty.span),
        FnInputMode::RawTrait(_) => InputModeV::RawTrait,
    }
}

/// How the generated implementation finds its dependency: through a generic `Impl<T>`, or
/// through one concrete type.
pub enum TraitDependencyMode<'t> {
    Generic(GenericIdents),
    Concrete(&'t TypeModel),
}

/// The identifiers of a generic implementation, as values.
pub struct GenericV {
    pub entrait: crate::model::IdentV,
    pub impl_self: crate::model::IdentV,
    pub impl_t: crate::model::IdentV,
}

pub enum ModeV {
    Generic(GenericV),
    Concrete(TypeV),
}

pub open spec fn generic_view(g: GenericIdents) -> GenericV {
    GenericV { entrait: g.crate_idents.entrait@, impl_self: g.impl_self@, impl_t: g.impl_t@ }
}

pub open spec fn mode_view(m: TraitDependencyMode) -> ModeV {
    match m {
        TraitDependencyMode::Generic(g) => ModeV::Generic(generic_view(g)),
        TraitDependencyMode::Concrete(t) => ModeV::Concrete(t@),
    }
}

/// `k` is the first function with a concrete dependency.
pub open spec fn first_concrete(fns: Seq<TraitFnV>, k: int) -> bool {
    &&& 0 <= k < fns.len()
    &&& fns[k].deps is Concrete
    &&& forall|j: int| 0 <= j < k ==> !(#[trigger] fns[j].deps is Concrete)
}

pub open spec fn concrete_in_module_message() -> Seq<char> {
    "Using concrete dependencies in a module is an anti-pattern. Instead, write a trait manually, use the #[entrait] attribute on it, and implement it for your application type"@
}

pub open spec fn concrete_in_impl_message() -> Seq<char> {
    "Cannot (yet) use concrete dependency in an impl block"@
}

/// The identifiers of the generic implementation made at `span`.
pub open spec fn generic_at(c: CrateIdents, span: Span) -> GenericV {
    GenericV {
        entrait: c.entrait@,
        impl_self: crate::model::IdentV { name: "Impl"@, span },
        impl_t: crate::model::IdentV { name: "EntraitT"@, span },
    }
}

/// A concrete dependency is only allowed for a single function, where the first one found is
/// used; otherwise the implementation is generic.
pub open spec fn spec_mode(fns: Seq<TraitFnV>, input: InputModeV, c: CrateIdents, span: Span) -> Result<ModeV, ErrV> {
    if exists|k: int| first_concrete(fns, k) {
        let k = choose|k: int| first_concrete(fns, k);
        let ty = fns[k].deps->Concrete_0;
        match input {
            InputModeV::SingleFn => Ok(ModeV::Concrete(ty)),
            InputModeV::Module => Err(err_at(ty.span, concrete_in_module_message())),
            _ => Err(err_at(ty.span, concrete_in_impl_message())),
        }
    } else {
        Ok(ModeV::Generic(generic_at(c, span)))
    }
}

pub fn detect_trait_dependency_mode<'t>(
    input_mode: &FnInputMode,
    trait_fns: &'t Vec<TraitFn>,
    crate_idents: &CrateIdents,
    span: Span,
) -> (r: Result<TraitDependencyMode<'t>, MacroError>)
    requires
        input_mode is RawTrait ==> forall|j: int| 0 <= j < trait_fns@.len() ==> !(#[trigger] trait_fns@[j].deps is Concrete),
    ensures
        match spec_mode(fns_view(trait_fns@), input_mode_view(*input_mode), *crate_idents, span) {
            Ok(m) => r matches Ok(x) && mode_view(x) == m,
            Err(e) => r matches Err(x) && x@ == e,
        },
        r matches Ok(TraitDependencyMode::Generic(g)) ==> g.crate_idents == *crate_idents,
{
    let ghost fv = fns_view(trait_fns@);
    let mut i: usize = 0;
    while i < trait_fns.len()
        invariant
            i <= trait_fns@.len(),
            fv == fns_view(trait_fns@),
            forall|j: int| 0 <= j < i ==> !(#[trigger] fv[j].deps is Concrete),
            *input_mode is RawTrait ==> forall|j: int| 0 <= j < trait_fns@.len() ==> !(#[trigger] trait_fns@[j].deps is Concrete),
        decreases trait_fns@.len() - i,
    {
        assert(fv[i as int] == trait_fns@[i as int]@);
        if let FnDeps::Concrete(ty) = &trait_fns[i].deps {
            assert(first_concrete(fv, i as int));
            proof {
                let k = choose|k: int| first_concrete(fv, k);
                if k < i {
                    assert(!(fv[k].deps is Concrete));
                } else if k > i {
                    assert(!(fv[i as int].deps is Concrete));
                }
                assert(fv[i as int].deps->Concrete_0 == (**ty)@);
            }
            return match input_mode {
                FnInputMode::SingleFn(_) => Ok(TraitDependencyMode::Concrete(&**ty)),
                FnInputMode::Module(_) => Err(MacroError::new(
                    ty.span,
                    "Using concrete dependencies in a module is an anti-pattern. Instead, write a trait manually, use the #[entrait] attribute on it, and implement it for your application type",
                )),
                FnInputMode::ImplBlock(_) => Err(MacroError::new(ty.span, "Cannot (yet) use concrete dependency in an impl block")),
                FnInputMode::RawTrait(_) => {
                    assert(trait_fns@[i as int].deps is Concrete);
                    assert(false);
                    Err(MacroError::new(ty.span, ""))
                },
            };
        }
        i = i + 1;
    }
    proof {
        if exists|k: int| first_concrete(fv, k) {
            let k = choose|k: int| first_concrete(fv, k);
            assert(!(fv[k].deps is Concrete));
        }
    }
    let g = GenericIdents::new(crate_idents.duplicate(), span);
    proof {
        reveal_strlit("Impl");
        reveal_strlit("EntraitT");
    }
    Ok(TraitDependencyMode::Generic(g))
}

} // verus!
