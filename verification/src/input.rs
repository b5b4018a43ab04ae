//! The items the macros are applied to: functions, modules and impl blocks.

use vstd::prelude::*;
use proc_macro2::Span;
use crate::model::{Ident, Signature, TypeModel, Visibility};
use crate::tokens::{Tok, TokV, tv, extend};

verus! {

/// A function: its attributes, visibility and signature as written, the signature as a
/// model, and its body, passed through unchanged.
pub struct InputFn {
    pub fn_attrs: Vec<Tok>,
    pub fn_vis: Visibility,
    pub sig_tokens: Vec<Tok>,
    pub fn_sig: Signature,
    pub fn_body: Vec<Tok>,
}

impl InputFn {
    pub open spec fn spec_tokens(&self) -> Seq<TokV> {
        tv(self.fn_attrs@) + tv(self.fn_vis.tokens@) + tv(self.sig_tokens@) + tv(self.fn_body@)
    }

    /// Writes the function back as it was.
    pub fn write_tokens(&self, out: &mut Vec<Tok>)
        ensures
            tv(final(out)@) == tv(old(out)@) + self.spec_tokens(),
    {
        let ghost base = tv(out@);
        extend(out, &self.fn_attrs);
        extend(out, &self.fn_vis.tokens);
        extend(out, &self.sig_tokens);
        extend(out, &self.fn_body);
        assert(tv(out@) =~= base + self.spec_tokens());
    }
}

/// An item that is passed through: its attributes, visibility and the rest of its tokens.
pub struct ItemUnknown {
    pub attrs: Vec<Tok>,
    pub vis: Visibility,
    pub tokens: Vec<Tok>,
}

impl ItemUnknown {
    pub open spec fn spec_tokens(&self) -> Seq<TokV> {
        tv(self.attrs@) + tv(self.vis.tokens@) + tv(self.tokens@)
    }

    pub fn write_tokens(&self, out: &mut Vec<Tok>)
        ensures
            tv(final(out)@) == tv(old(out)@) + self.spec_tokens(),
    {
        let ghost base = tv(out@);
        extend(out, &self.attrs);
        extend(out, &self.vis.tokens);
        extend(out, &self.tokens);
        assert(tv(out@) =~= base + self.spec_tokens());
    }
}

/// An item of a module: a function with a visibility, which goes into the trait, or anything else.
pub enum ModItem {
    PubFn(Box<InputFn>),
    Unknown(ItemUnknown),
}

impl ModItem {
    /// The functions that have a visibility keyword go into the trait.
    pub fn filter_pub_fn(&self) -> (r: Option<&InputFn>)
        ensures
            match *self {
                ModItem::PubFn(f) => r == Some(&*f),
                ModItem::Unknown(_) => r is None,
            },
    {
        match self {
            ModItem::PubFn(input_fn) => Some(&**input_fn),
            _ => None,
        }
    }

    pub open spec fn spec_tokens(&self) -> Seq<TokV> {
        match *self {
            ModItem::PubFn(f) => f.spec_tokens(),
            ModItem::Unknown(u) => u.spec_tokens(),
        }
    }

    pub fn write_tokens(&self, out: &mut Vec<Tok>)
        ensures
            tv(final(out)@) == tv(old(out)@) + self.spec_tokens(),
    {
        match self {
            ModItem::PubFn(f) => f.write_tokens(out),
            ModItem::Unknown(u) => u.write_tokens(out),
        }
    }
}

/// The tokens of items, one after the other.
pub open spec fn mod_items_toks(items: Seq<ModItem>) -> Seq<TokV>
    decreases items.len(),
{
    if items.len() == 0 {
        Seq::empty()
    } else {
        mod_items_toks(items.drop_last()) + items.last().spec_tokens()
    }
}

pub fn write_mod_items(out: &mut Vec<Tok>, items: &Vec<ModItem>)
    ensures
        tv(final(out)@) == tv(old(out)@) + mod_items_toks(items@),
{
    let ghost base = tv(out@);
    let mut i: usize = 0;
    assert(items@.take(0) =~= Seq::<ModItem>::empty());
    while i < items.len()
        invariant
            i <= items@.len(),
            tv(out@) == base + mod_items_toks(items@.take(i as int)),
        decreases items@.len() - i,
    {
        let ghost t = items@.take(i + 1);
        assert(t.drop_last() =~= items@.take(i as int));
        assert(t.last() == items@[i as int]);
        let ghost before = mod_items_toks(items@.take(i as int));
        items[i].write_tokens(out);
        proof { crate::tokens::lemma_add_assoc(base, before, items@[i as int].spec_tokens()); }
        i = i + 1;
    }
    assert(items@.take(items@.len() as int) =~= items@);
}

/// The functions of the items that go into the trait, in order.
pub open spec fn pub_fns(items: Seq<ModItem>) -> Seq<InputFn>
    decreases items.len(),
{
    if items.len() == 0 {
        Seq::empty()
    } else {
        match items.last() {
            ModItem::PubFn(f) => pub_fns(items.drop_last()).push(*f),
            ModItem::Unknown(_) => pub_fns(items.drop_last()),
        }
    }
}

/// A module: `attrs vis mod ident { items }`.
pub struct InputMod {
    pub attrs: Vec<Tok>,
    pub vis: Visibility,
    pub mod_span: Span,
    pub ident: Ident,
    pub items: Vec<ModItem>,
}

/// An item of an impl block: a function, which goes into the trait, or anything else.
pub enum ImplItem {
    Fn(Box<InputFn>),
    Unknown(ItemUnknown),
}

impl ImplItem {
    /// Every function of an impl block goes into the trait.
    pub fn filter_fn(&self) -> (r: Option<&InputFn>)
        ensures
            match *self {
                ImplItem::Fn(f) => r == Some(&*f),
                ImplItem::Unknown(_) => r is None,
            },
    {
        match self {
            ImplItem::Fn(input_fn) => Some(&**input_fn),
            _ => None,
        }
    }

    pub open spec fn spec_tokens(&self) -> Seq<TokV> {
        match *self {
            ImplItem::Fn(f) => f.spec_tokens(),
            ImplItem::Unknown(u) => u.spec_tokens(),
        }
    }

    pub fn write_tokens(&self, out: &mut Vec<Tok>)
        ensures
            tv(final(out)@) == tv(old(out)@) + self.spec_tokens(),
    {
        match self {
            ImplItem::Fn(f) => f.write_tokens(out),
            ImplItem::Unknown(u) => u.write_tokens(out),
        }
    }
}

pub open spec fn impl_items_toks(items: Seq<ImplItem>) -> Seq<TokV>
    decreases items.len(),
{
    if items.len() == 0 {
        Seq::empty()
    } else {
        impl_items_toks(items.drop_last()) + items.last().spec_tokens()
    }
}

pub fn write_impl_items(out: &mut Vec<Tok>, items: &Vec<ImplItem>)
    ensures
        tv(final(out)@) == tv(old(out)@) + impl_items_toks(items@),
{
    let ghost base = tv(out@);
    let mut i: usize = 0;
    assert(items@.take(0) =~= Seq::<ImplItem>::empty());
    while i < items.len()
        invariant
            i <= items@.len(),
            tv(out@) == base + impl_items_toks(items@.take(i as int)),
        decreases items@.len() - i,
    {
        let ghost t = items@.take(i + 1);
        assert(t.drop_last() =~= items@.take(i as int));
        assert(t.last() == items@[i as int]);
        let ghost before = impl_items_toks(items@.take(i as int));
        items[i].write_tokens(out);
        proof { crate::tokens::lemma_add_assoc(base, before, items@[i as int].spec_tokens()); }
        i = i + 1;
    }
    assert(items@.take(items@.len() as int) =~= items@);
}

pub open spec fn impl_fns(items: Seq<ImplItem>) -> Seq<InputFn>
    decreases items.len(),
{
    if items.len() == 0 {
        Seq::empty()
    } else {
        match items.last() {
            ImplItem::Fn(f) => impl_fns(items.drop_last()).push(*f),
            ImplItem::Unknown(_) => impl_fns(items.drop_last()),
        }
    }
}

/// An impl block: `attrs unsafe? impl Trait for Type { items }`. Generics are not supported.
pub struct InputImpl {
    /// Each attribute as written.
    pub attrs: Vec<Vec<Tok>>,
    pub unsafety: Option<Span>,
    pub impl_span: Span,
    pub trait_path: Vec<Tok>,
    /// The span of the last segment of the trait path.
    pub trait_span: Span,
    pub self_ty: TypeModel,
    pub items: Vec<ImplItem>,
}

} // verus!
