//! The macro variants: each applies `entrait` with some options switched on by default.

use vstd::prelude::*;
use proc_macro2::Span;
use crate::entrait_fn::{entrait_for_mod, entrait_for_single_fn, spec_mod, spec_single_fn};
use crate::entrait_impl::{output_tokens_for_impl, spec_impl_output};
use crate::entrait_trait::{InputTrait, methods_reached, output_tokens, spec_trait_output, trait_items_plain};
use crate::error::MacroError;
use crate::input::{InputFn, InputImpl, InputMod};
use crate::input_attr::{EntraitFnAttr, EntraitSimpleImplAttr, EntraitTraitAttr};
use crate::opt::{AsyncStrategy, FlagOpt, apply_variant, flag, with_variant};
use crate::tokens::{Tok, tv};

verus! {

/// The flags a macro variant switches on, and the async strategy it uses.
pub struct Variant {
    pub flags: Vec<FlagOpt>,
    pub strategy: Option<AsyncStrategy>,
}

/// `entrait` on a function, under a variant; the flag says whether to print the output.
pub fn invoke_single_fn(attr: EntraitFnAttr, input: &InputFn, variant: &Variant, gen_span: Span) -> (r: (Result<Vec<Tok>, MacroError>, bool))
    ensures
        ({
            let a2 = EntraitFnAttr { opts: with_variant(attr.opts, variant.flags@, variant.strategy, gen_span), ..attr };
            &&& r.1 == flag(a2.opts.debug)
            &&& match spec_single_fn(a2, *input, gen_span) {
                Ok(t) => r.0 matches Ok(x) && tv(x@) == t,
                Err(e) => r.0 matches Err(x) && x@ == e,
            }
        }),
{
    let mut attr = attr;
    apply_variant(&mut attr.opts, &variant.flags, variant.strategy, gen_span);
    let debug = attr.opts.debug_value();
    (entrait_for_single_fn(&attr, input, gen_span), debug)
}

/// `entrait` on a module, under a variant.
pub fn invoke_mod(attr: EntraitFnAttr, input: &InputMod, variant: &Variant, gen_span: Span) -> (r: (Result<Vec<Tok>, MacroError>, bool))
    ensures
        ({
            let a2 = EntraitFnAttr { opts: with_variant(attr.opts, variant.flags@, variant.strategy, gen_span), ..attr };
            &&& r.1 == flag(a2.opts.debug)
            &&& match spec_mod(a2, *input, gen_span) {
                Ok(t) => r.0 matches Ok(x) && tv(x@) == t,
                Err(e) => r.0 matches Err(x) && x@ == e,
            }
        }),
{
    let mut attr = attr;
    apply_variant(&mut attr.opts, &variant.flags, variant.strategy, gen_span);
    let debug = attr.opts.debug_value();
    (entrait_for_mod(&attr, input, gen_span), debug)
}

/// `entrait` on a trait, under a variant.
pub fn invoke_trait(attr: EntraitTraitAttr, input: InputTrait, variant: &Variant, gen_span: Span) -> (r: (Result<Vec<Tok>, MacroError>, bool))
    requires
        methods_reached(EntraitTraitAttr { opts: with_variant(attr.opts, variant.flags@, variant.strategy, gen_span), ..attr }, input, gen_span)
            ==> trait_items_plain(input.items@),
    ensures
        ({
            let a2 = EntraitTraitAttr { opts: with_variant(attr.opts, variant.flags@, variant.strategy, gen_span), ..attr };
            &&& r.1 == flag(a2.opts.debug)
            &&& match spec_trait_output(a2, input, gen_span) {
                Ok(t) => r.0 matches Ok(x) && tv(x@) == t,
                Err(e) => r.0 matches Err(x) && x@ == e,
            }
        }),
{
    let mut attr = attr;
    apply_variant(&mut attr.opts, &variant.flags, variant.strategy, gen_span);
    let debug = attr.opts.debug_value();
    (output_tokens(&attr, input, gen_span), debug)
}

/// `entrait` on an impl block, under a variant.
pub fn invoke_impl(attr: EntraitSimpleImplAttr, input: &InputImpl, variant: &Variant, gen_span: Span) -> (r: (Result<Vec<Tok>, MacroError>, bool))
    ensures
        ({
            let a2 = EntraitSimpleImplAttr { opts: with_variant(attr.opts, variant.flags@, variant.strategy, gen_span), ..attr };
            &&& r.1 == flag(a2.opts.debug)
            &&& match spec_impl_output(a2, *input, gen_span) {
                Ok(t) => r.0 matches Ok(x) && tv(x@) == t,
                Err(e) => r.0 matches Err(x) && x@ == e,
            }
        }),
{
    let mut attr = attr;
    apply_variant(&mut attr.opts, &variant.flags, variant.strategy, gen_span);
    let debug = attr.opts.debug_value();
    (output_tokens_for_impl(&attr, input, gen_span), debug)
}

} // verus!
