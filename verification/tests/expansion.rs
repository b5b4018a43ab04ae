//! The library on the items of the macro's usage scenarios: each expansion is read back as
//! text and checked for the items those scenarios rely on.

#![allow(dead_code)]

use entrait_macros::entrait_trait::{items_plain, reaches_methods, InputTrait, TraitItem};
use entrait_macros::error::MacroError;
use entrait_macros::lifetimes::ElisionDetector;
use entrait_macros::signature::ReceiverGeneration;
use entrait_macros::input::{ImplItem, InputFn, InputImpl, InputMod, ItemUnknown, ModItem};
use entrait_macros::input_attr::{parse_fn_attr, parse_simple_impl_attr, parse_trait_attr};
use entrait_macros::invoke::{invoke_impl, invoke_mod, invoke_single_fn, invoke_trait, Variant};
use entrait_macros::item_parse::{classify_input, split_items, InputKind, ItemSplit};
use entrait_macros::opt::{set_fallbacks, FlagOpt};
use entrait_macros::model::{
    Bound, FnArg, GenericParam, GenericParamKind, Generics, Ident, LifetimeSlot, PatModel,
    Signature, SlotKind, TypeModel, TypeShape, Visibility, WherePredicate,
};
use entrait_macros::static_async_trait::{static_async_accepts, output_tokens, StaticAsyncInput, StaticItem};
use entrait_macros::tokens::{Delimiter, Spacing, Tok, TokenKind};
use entrait_macros::trait_codegen::Supertraits;
use proc_macro2::{Group, Literal, Punct, Span, TokenStream, TokenTree};
use quote::ToTokens;
use syn::parse::{Parse, ParseStream, Parser};
use syn::spanned::Spanned;
use syn::visit_mut::VisitMut;

// ---- tokens <-> token streams

fn delimiter_of(d: proc_macro2::Delimiter) -> Delimiter {
    match d {
        proc_macro2::Delimiter::Parenthesis => Delimiter::Parenthesis,
        proc_macro2::Delimiter::Bracket => Delimiter::Bracket,
        proc_macro2::Delimiter::Brace => Delimiter::Brace,
        proc_macro2::Delimiter::None => Delimiter::Invisible,
    }
}

fn delimiter_to(d: Delimiter) -> proc_macro2::Delimiter {
    match d {
        Delimiter::Parenthesis => proc_macro2::Delimiter::Parenthesis,
        Delimiter::Bracket => proc_macro2::Delimiter::Bracket,
        Delimiter::Brace => proc_macro2::Delimiter::Brace,
        Delimiter::Invisible => proc_macro2::Delimiter::None,
    }
}

/// Flattens a token stream: a group becomes its opening token, its contents and its
/// closing token; a lifetime becomes one token.
fn flatten(stream: TokenStream) -> Vec<Tok> {
    let mut out = Vec::new();
    push_stream(&mut out, stream);
    out
}

fn push_stream(out: &mut Vec<Tok>, stream: TokenStream) {
    let mut iter = stream.into_iter().peekable();
    while let Some(tree) = iter.next() {
        match tree {
            TokenTree::Group(group) => {
                let d = delimiter_of(group.delimiter());
                out.push(Tok { kind: TokenKind::Open(d), span: group.span_open() });
                push_stream(out, group.stream());
                out.push(Tok { kind: TokenKind::Close(d), span: group.span_close() });
            }
            TokenTree::Ident(ident) => {
                out.push(Tok { kind: TokenKind::Ident(ident.to_string()), span: ident.span() });
            }
            TokenTree::Punct(punct) => {
                let is_lifetime = punct.as_char() == '\''
                    && punct.spacing() == proc_macro2::Spacing::Joint
                    && matches!(iter.peek(), Some(TokenTree::Ident(_)));
                if is_lifetime {
                    if let Some(TokenTree::Ident(ident)) = iter.next() {
                        out.push(Tok { kind: TokenKind::Lifetime(ident.to_string()), span: ident.span() });
                    }
                } else {
                    let spacing = match punct.spacing() {
                        proc_macro2::Spacing::Alone => Spacing::Alone,
                        proc_macro2::Spacing::Joint => Spacing::Joint,
                    };
                    out.push(Tok { kind: TokenKind::Punct(punct.as_char(), spacing), span: punct.span() });
                }
            }
            TokenTree::Literal(literal) => {
                out.push(Tok { kind: TokenKind::Literal(literal.to_string()), span: literal.span() });
            }
        }
    }
}

fn make_ident(name: &str, span: Span) -> proc_macro2::Ident {
    match name.strip_prefix("r#") {
        Some(raw) => proc_macro2::Ident::new_raw(raw, span),
        None => proc_macro2::Ident::new(name, span),
    }
}

/// Rebuilds a token stream from flat tokens. A group left open at the end is closed there.
fn unflatten(toks: &[Tok]) -> TokenStream {
    let mut stack: Vec<(Delimiter, Span, TokenStream)> = Vec::new();
    let mut current = TokenStream::new();
    for tok in toks {
        match &tok.kind {
            TokenKind::Ident(name) => current.extend([TokenTree::Ident(make_ident(name, tok.span))]),
            TokenKind::Punct(c, spacing) => {
                let spacing = match spacing {
                    Spacing::Alone => proc_macro2::Spacing::Alone,
                    Spacing::Joint => proc_macro2::Spacing::Joint,
                };
                let mut punct = Punct::new(*c, spacing);
                punct.set_span(tok.span);
                current.extend([TokenTree::Punct(punct)]);
            }
            TokenKind::Lifetime(name) => {
                let mut apostrophe = Punct::new('\'', proc_macro2::Spacing::Joint);
                apostrophe.set_span(tok.span);
                current.extend([TokenTree::Punct(apostrophe), TokenTree::Ident(make_ident(name, tok.span))]);
            }
            TokenKind::Literal(text) => {
                let mut literal: Literal = text.parse().unwrap_or_else(|_| Literal::string(text));
                literal.set_span(tok.span);
                current.extend([TokenTree::Literal(literal)]);
            }
            TokenKind::Open(d) => {
                stack.push((*d, tok.span, std::mem::take(&mut current)));
            }
            TokenKind::Close(_) => {
                if let Some((d, span, outer)) = stack.pop() {
                    current = close_group(d, span, current, outer);
                }
            }
            TokenKind::Slot(_) => {}
        }
    }
    while let Some((d, span, outer)) = stack.pop() {
        current = close_group(d, span, current, outer);
    }
    current
}

fn close_group(d: Delimiter, span: Span, inner: TokenStream, mut outer: TokenStream) -> TokenStream {
    let mut group = Group::new(delimiter_to(d), inner);
    group.set_span(span);
    outer.extend([TokenTree::Group(group)]);
    outer
}

// ---- syntax to model

fn tokens_of<T: ToTokens>(node: &T) -> Vec<Tok> {
    flatten(node.to_token_stream())
}

fn ident(ident: &syn::Ident) -> Ident {
    Ident { name: ident.to_string(), span: ident.span() }
}

fn visibility(vis: &syn::Visibility) -> Visibility {
    Visibility { tokens: tokens_of(vis) }
}

fn bound<T: ToTokens>(node: &T) -> Bound {
    Bound { tokens: tokens_of(node) }
}

fn type_model(ty: &syn::Type) -> TypeModel {
    let (tokens, slots) = entrait_macros::slots::slot_tokens(&tokens_of(ty));
    let shape = match ty {
        syn::Type::ImplTrait(impl_trait) => TypeShape::ImplTrait {
            bounds: impl_trait.bounds.iter().map(bound).collect(),
        },
        syn::Type::Path(type_path) => TypeShape::Path {
            qself: type_path.qself.is_some(),
            leading_colon: type_path.path.leading_colon.is_some(),
            segments: type_path.path.segments.iter().map(|segment| ident(&segment.ident)).collect(),
        },
        syn::Type::Reference(reference) => TypeShape::Reference { elem: Box::new(type_model(&reference.elem)) },
        syn::Type::Paren(paren) => TypeShape::Paren { elem: Box::new(type_model(&paren.elem)) },
        _ => TypeShape::Other,
    };
    TypeModel { shape, tokens, slots, span: ty.span() }
}

/// Collects the identifiers of a pattern's bindings, not descending below a binding.
struct PatIdents(Vec<(String, proc_macro2::Span)>);

impl VisitMut for PatIdents {
    fn visit_pat_ident_mut(&mut self, pat_ident: &mut syn::PatIdent) {
        self.0.push((pat_ident.ident.to_string(), pat_ident.ident.span()));
    }
}

fn pat_model(pat: &syn::Pat) -> PatModel {
    match pat {
        syn::Pat::Ident(pat_ident) => PatModel::Ident {
            by_ref: pat_ident.by_ref.is_some(),
            mutable: pat_ident.mutability.is_some(),
            ident: pat_ident.ident.to_string(),
            span: pat_ident.ident.span(),
        },
        other => {
            let mut searcher = PatIdents(Vec::new());
            searcher.visit_pat_mut(&mut other.clone());
            PatModel::Other { idents: searcher.0, tokens: tokens_of(other) }
        }
    }
}

fn fn_arg(arg: &syn::FnArg) -> FnArg {
    match arg {
        syn::FnArg::Receiver(receiver) => FnArg::Receiver {
            reference: receiver.reference.as_ref().map(|(_, lifetime)| LifetimeSlot {
                kind: SlotKind::Reference,
                name: lifetime.as_ref().map(|lifetime| lifetime.ident.to_string()),
            }),
            mutable: receiver.mutability.is_some(),
            self_ty: receiver.colon_token.map(|_| type_model(&receiver.ty)),
            span: receiver.self_token.span,
        },
        syn::FnArg::Typed(pat_type) => FnArg::Typed {
            attrs: pat_type.attrs.iter().flat_map(tokens_of).collect(),
            pat: pat_model(&pat_type.pat),
            ty: type_model(&pat_type.ty),
        },
    }
}

fn generics(generics: &syn::Generics) -> Generics {
    let params = generics
        .params
        .iter()
        .map(|param| match param {
            syn::GenericParam::Type(type_param) => GenericParam {
                kind: GenericParamKind::Type,
                ident: ident(&type_param.ident),
                bounds: type_param.bounds.iter().map(bound).collect(),
                tokens: tokens_of(param),
            },
            syn::GenericParam::Lifetime(lifetime_param) => GenericParam {
                kind: GenericParamKind::Lifetime,
                ident: ident(&lifetime_param.lifetime.ident),
                bounds: lifetime_param.bounds.iter().map(bound).collect(),
                tokens: tokens_of(param),
            },
            syn::GenericParam::Const(const_param) => GenericParam {
                kind: GenericParamKind::Const,
                ident: ident(&const_param.ident),
                bounds: Vec::new(),
                tokens: tokens_of(param),
            },
        })
        .collect();
    let where_clause = generics.where_clause.as_ref().map(|where_clause| {
        where_clause
            .predicates
            .iter()
            .map(|predicate| match predicate {
                syn::WherePredicate::Type(pred) => WherePredicate {
                    bounded: Some(type_model(&pred.bounded_ty)),
                    bounds: pred.bounds.iter().map(bound).collect(),
                    tokens: tokens_of(predicate),
                },
                syn::WherePredicate::Lifetime(pred) => WherePredicate {
                    bounded: None,
                    bounds: pred.bounds.iter().map(bound).collect(),
                    tokens: tokens_of(predicate),
                },
                other => WherePredicate { bounded: None, bounds: Vec::new(), tokens: tokens_of(other) },
            })
            .collect()
    });
    Generics { params, where_clause }
}

fn signature(sig: &syn::Signature) -> Signature {
    let mut prefix = Vec::new();
    if let Some(constness) = &sig.constness {
        prefix.extend(tokens_of(constness));
    }
    if let Some(unsafety) = &sig.unsafety {
        prefix.extend(tokens_of(unsafety));
    }
    if let Some(abi) = &sig.abi {
        prefix.extend(tokens_of(abi));
    }
    Signature {
        prefix,
        asyncness: sig.asyncness.is_some(),
        ident: sig.ident.to_string(),
        span: sig.ident.span(),
        generics: generics(&sig.generics),
        inputs: sig.inputs.iter().map(fn_arg).collect(),
        output: match &sig.output {
            syn::ReturnType::Default => None,
            syn::ReturnType::Type(_, ty) => Some(type_model(ty)),
        },
    }
}

// ---- inputs

fn dup(toks: &[Tok]) -> Vec<Tok> {
    toks.iter().map(Tok::duplicate).collect()
}

/// A single function: the library splits it into attributes, visibility, signature and body;
/// the signature is read into the model here.
fn parse_fn(input: TokenStream) -> syn::Result<InputFn> {
    let toks = flatten(input);
    if toks.len() >= usize::MAX - 4 {
        return Err(syn::Error::new(Span::call_site(), "input too long"));
    }
    let parts = entrait_macros::item_parse::split_fn(&toks, Span::call_site()).map_err(to_syn_error)?;
    let sig: syn::Signature = syn::parse2(unflatten(&parts.sig_tokens))?;
    Ok(parts.into_input_fn(signature(&sig)))
}

struct Braced(TokenStream);

impl Parse for Braced {
    fn parse(input: ParseStream) -> syn::Result<Self> {
        let group: proc_macro2::Group = input.parse()?;
        if group.delimiter() != proc_macro2::Delimiter::Brace {
            return Err(syn::Error::new(group.span(), "expected curly braces"));
        }
        Ok(Braced(group.stream()))
    }
}

fn to_syn_error(error: MacroError) -> syn::Error {
    syn::Error::new(error.span, error.message)
}

/// Splits the contents of a module or impl block into items. `want_pub`: only functions
/// with a visibility are read as functions.
fn split(content: &[Tok], want_pub: bool) -> syn::Result<Vec<(ItemSplit, Option<InputFn>)>> {
    let toks = dup(content);
    if toks.len() >= usize::MAX - 4 {
        return Err(syn::Error::new(Span::call_site(), "input too long"));
    }
    let splits = split_items(&toks, want_pub, Span::call_site()).map_err(to_syn_error)?;
    splits
        .into_iter()
        .map(|s| match s.sig_end {
            Some(sig_end) => {
                let sig: syn::Signature = syn::parse2(unflatten(&toks[s.vis_end..sig_end]))?;
                let input_fn = InputFn {
                    fn_attrs: dup(&toks[s.start..s.attrs_end]),
                    fn_vis: Visibility { tokens: dup(&toks[s.attrs_end..s.vis_end]) },
                    sig_tokens: dup(&toks[s.vis_end..sig_end]),
                    fn_sig: signature(&sig),
                    fn_body: dup(&toks[sig_end..s.end]),
                };
                Ok((s, Some(input_fn)))
            }
            None => Ok((s, None)),
        })
        .collect()
}

fn unknown(toks: &[Tok], s: &ItemSplit) -> ItemUnknown {
    ItemUnknown {
        attrs: dup(&toks[s.start..s.attrs_end]),
        vis: Visibility { tokens: dup(&toks[s.attrs_end..s.vis_end]) },
        tokens: dup(&toks[s.vis_end..s.end]),
    }
}

/// A module: `attrs vis mod ident { items }`.
fn parse_mod(input: TokenStream) -> syn::Result<InputMod> {
    let parser = |stream: ParseStream| {
        let attrs = stream.call(syn::Attribute::parse_outer)?;
        let vis: syn::Visibility = stream.parse()?;
        let mod_token: syn::token::Mod = stream.parse()?;
        let mod_ident: syn::Ident = stream.parse()?;
        let content: Braced = stream.parse()?;
        Ok((attrs, vis, mod_token, mod_ident, content.0))
    };
    let (attrs, vis, mod_token, mod_ident, content) = parser.parse2(input)?;
    let toks = flatten(content);
    let items = split(&toks, true)?
        .into_iter()
        .map(|(s, input_fn)| match input_fn {
            Some(input_fn) => ModItem::PubFn(Box::new(input_fn)),
            None => ModItem::Unknown(unknown(&toks, &s)),
        })
        .collect();
    Ok(InputMod {
        attrs: attrs.iter().flat_map(tokens_of).collect(),
        vis: visibility(&vis),
        mod_span: mod_token.span,
        ident: ident(&mod_ident),
        items,
    })
}

/// An impl block: `attrs unsafe? impl Trait for Type { items }`.
fn parse_impl(input: TokenStream) -> syn::Result<InputImpl> {
    let parser = |stream: ParseStream| {
        let attrs = stream.call(syn::Attribute::parse_outer)?;
        let unsafety: Option<syn::token::Unsafe> = stream.parse()?;
        let impl_token: syn::token::Impl = stream.parse()?;
        let trait_path: syn::Path = stream.parse()?;
        let _for_token: syn::token::For = stream.parse()?;
        let self_ty: syn::Type = stream.parse()?;
        let content: Braced = stream.parse()?;
        Ok((attrs, unsafety, impl_token, trait_path, self_ty, content.0))
    };
    let (attrs, unsafety, impl_token, trait_path, self_ty, content) = parser.parse2(input)?;
    let trait_span = trait_path
        .segments
        .last()
        .map(|segment| segment.span())
        .unwrap_or_else(Span::call_site);
    let toks = flatten(content);
    let items = split(&toks, false)?
        .into_iter()
        .map(|(s, input_fn)| match input_fn {
            Some(input_fn) => ImplItem::Fn(Box::new(input_fn)),
            None => ImplItem::Unknown(unknown(&toks, &s)),
        })
        .collect();
    Ok(InputImpl {
        attrs: attrs.iter().map(tokens_of).collect(),
        unsafety: unsafety.map(|token| token.span),
        impl_span: impl_token.span,
        trait_path: tokens_of(&trait_path),
        trait_span,
        self_ty: type_model(&self_ty),
        items,
    })
}

/// A trait, with its methods, associated types and anything else it holds.
fn parse_trait(input: TokenStream) -> syn::Result<InputTrait> {
    let item_trait: syn::ItemTrait = syn::parse2(input)?;
    let items = item_trait
        .items
        .iter()
        .map(|item| match item {
            syn::TraitItem::Fn(method) => TraitItem::Fn {
                attrs: method.attrs.iter().flat_map(tokens_of).collect(),
                sig: signature(&method.sig),
            },
            syn::TraitItem::Type(assoc) => TraitItem::Type { tokens: tokens_of(assoc) },
            other => TraitItem::Other { span: other.span() },
        })
        .collect();
    let supertraits = match item_trait.colon_token {
        Some(colon) => Supertraits::Bounds { colon_span: colon.span, bounds: tokens_of(&item_trait.supertraits) },
        None => Supertraits::Empty,
    };
    Ok(InputTrait {
        attrs: item_trait.attrs.iter().map(tokens_of).collect(),
        vis: visibility(&item_trait.vis),
        unsafety: item_trait.unsafety.map(|token| token.span),
        auto_token: item_trait.auto_token.map(|token| token.span),
        ident: ident(&item_trait.ident),
        generics: generics(&item_trait.generics),
        supertraits,
        items,
    })
}

// ---- expansion helpers

fn stream(text: &str) -> TokenStream {
    text.parse().expect("test input lexes")
}

fn compact(text: &str) -> String {
    text.chars().filter(|c| !c.is_whitespace()).collect()
}

fn render(toks: &[Tok]) -> String {
    compact(&unflatten(toks).to_string())
}

fn plain_variant() -> Variant {
    Variant { flags: vec![], strategy: None }
}

fn expand_fn(attr: &str, item: &str) -> Result<String, String> {
    expand_fn_with(attr, item, &plain_variant()).map(|(out, _)| out)
}

fn expand_fn_with(attr: &str, item: &str, variant: &Variant) -> Result<(String, bool), String> {
    let input = parse_fn(stream(item)).expect("function parses");
    let attr = parse_fn_attr(&flatten(stream(attr)), Span::call_site()).map_err(|e| e.message)?;
    let (result, debug) = invoke_single_fn(attr, &input, variant, Span::call_site());
    result.map(|toks| (render(&toks), debug)).map_err(|e| e.message)
}

fn expand_mod(attr: &str, item: &str) -> Result<String, String> {
    let input = parse_mod(stream(item)).expect("module parses");
    let attr = parse_fn_attr(&flatten(stream(attr)), Span::call_site()).map_err(|e| e.message)?;
    let (result, _) = invoke_mod(attr, &input, &plain_variant(), Span::call_site());
    result.map(|toks| render(&toks)).map_err(|e| e.message)
}

fn expand_trait(attr: &str, item: &str) -> Result<String, String> {
    let input = parse_trait(stream(item)).expect("trait parses");
    let attr = parse_trait_attr(&flatten(stream(attr)), Span::call_site()).map_err(|e| e.message)?;
    let (result, _) = invoke_trait(attr, input, &plain_variant(), Span::call_site());
    result.map(|toks| render(&toks)).map_err(|e| e.message)
}

fn expand_impl(attr: &str, item: &str) -> Result<String, String> {
    let input = parse_impl(stream(item)).expect("impl block parses");
    let attr = parse_simple_impl_attr(&flatten(stream(attr)), Span::call_site()).map_err(|e| e.message)?;
    let (result, _) = invoke_impl(attr, &input, &plain_variant(), Span::call_site());
    result.map(|toks| render(&toks)).map_err(|e| e.message)
}

fn assert_has(output: &str, fragment: &str) {
    let fragment = compact(fragment);
    assert!(output.contains(&fragment), "expected `{}` in:\n{}", fragment, output);
}

fn assert_lacks(output: &str, fragment: &str) {
    let fragment = compact(fragment);
    assert!(!output.contains(&fragment), "did not expect `{}` in:\n{}", fragment, output);
}

fn fixed_param_names(sig_text: &str) -> Vec<String> {
    let sig: syn::Signature = syn::parse_str(sig_text).expect("signature parses");
    let mut model = signature(&sig);
    entrait_macros::fn_params::fix_fn_param_idents(&mut model, Span::call_site());
    model
        .inputs
        .iter()
        .map(|arg| match arg {
            FnArg::Receiver { .. } => "self".to_string(),
            FnArg::Typed { pat: PatModel::Ident { ident, .. }, .. } => ident.clone(),
            FnArg::Typed { .. } => "<pattern>".to_string(),
        })
        .collect()
}

// ---- parameter names

#[test]
fn should_not_generate_conflicts() {
    assert_eq!(
        fixed_param_names("fn foo(arg1: T, _: T, T(arg3): T, _: T)"),
        vec!["arg1", "_arg1", "arg3", "_arg3"],
    );
    assert_eq!(fixed_param_names("fn foo(_: T, T(arg0): T)"), vec!["_arg0", "arg0"]);
}

#[test]
fn should_extract_only_unambiguous_pat_idents() {
    assert_eq!(
        fixed_param_names(
            "fn f(
                ident0: T,
                T(ident1): T,
                T(T(ident2)): T,
                T(ident3, _): T,
                T(ident4, None): T,
                T(None): T,
                T(foo, bar): T,
                T(foo, T(bar)): T,
            )"
        ),
        vec!["ident0", "ident1", "ident2", "ident3", "ident4", "arg5", "arg6", "arg7"],
    );
}

// ---- expansions

const MOCKALL_FOO: &str = "fn mockall_foo(_deps: &(), arg: i32) -> i32 { arg }";

fn check_mockall_fn() {
    let out = expand_fn("MockallFoo, mockall", MOCKALL_FOO).unwrap();
    assert_has(&out, "fn mockall_foo(_deps: &(), arg: i32) -> i32 { arg }");
    assert_has(&out, "#[cfg_attr(test, ::mockall::automock)]");
    assert_has(&out, "trait MockallFoo { fn mockall_foo(&self, arg: i32) -> i32; }");
    assert_has(&out, "mockall_foo(self, arg)");
}

#[test]
fn mockall_test() {
    check_mockall_fn();

    let out = expand_trait("mockall", "trait Trait { fn method(&self) -> i32; }").unwrap();
    assert_has(&out, "#[::mockall::automock] trait Trait");
    assert_lacks(&out, "cfg_attr");
    assert_has(&out, "trait Trait { fn method(&self) -> i32; }");
    assert_has(&out, "fn method(&self) -> i32 { self.as_ref().method() }");
}

#[test]
fn test_mockall_test() {
    check_mockall_fn();
}

const PLAIN: &str = "trait Plain { fn method0(&self, arg: i32) -> i32; }";

fn check_plain_trait() {
    let out = expand_trait("", PLAIN).unwrap();
    assert_has(&out, "trait Plain { fn method0(&self, arg: i32) -> i32; }");
    assert_has(&out, "Plain for ::entrait::Impl<EntraitT>");
    assert_has(&out, "EntraitT: Plain + Sync");
    assert_has(&out, "fn method0(&self, arg: i32) -> i32 { self.as_ref().method0(arg) }");
    assert_lacks(&out, "automock");
}

#[test]
fn simple_entraited_trait_should_have_impl_impl() {
    check_plain_trait();
}

#[test]
fn test_simple_entraited_trait_should_have_impl_impl() {
    check_plain_trait();
}

#[test]
fn call_compiled() {
    let out = expand_trait(
        "mock_api = TraitMock",
        "trait Trait {
            fn compiled(&self);

            #[cfg(feature = \"always-disabled\")]
            fn not_compiled(&self) -> NonExistentType;
        }",
    )
    .unwrap();
    assert_has(&out, "fn compiled(&self) { self.as_ref().compiled() }");
    assert_has(
        &out,
        "#[cfg(feature = \"always-disabled\")] fn not_compiled(&self) -> NonExistentType { self.as_ref().not_compiled() }",
    );
    assert_lacks(&out, "unimock");
}

const FOOBAR: &str = "pub trait Foobar { fn foo(&self) -> i32; fn bar(&self) -> u32; }";

#[test]
fn test_dependency_inversion_test_mod() {
    let out = expand_trait("FoobarImpl, delegate_by = DelegateFoobar", FOOBAR).unwrap();
    assert_has(&out, "pub trait Foobar { fn foo(&self) -> i32; fn bar(&self) -> u32; }");
    assert_has(&out, "pub trait FoobarImpl<EntraitT>: 'static");
    assert_has(&out, "fn foo(__impl: &::entrait::Impl<EntraitT>) -> i32;");
    assert_has(&out, "pub trait DelegateFoobar<T> { type Target: FoobarImpl<T>; }");
    assert_has(&out, "EntraitT: DelegateFoobar<EntraitT>");
    assert_has(&out, "<EntraitT::Target as FoobarImpl<EntraitT>>::foo(self,)");
}

#[test]
fn test_dependency_inversion_test_impl_block() {
    let out = expand_impl(
        "",
        "impl FoobarImpl for MyImpl2 {
            fn bar<D>(_: &D) -> u32 {
                1337
            }

            fn foo(deps: &impl super::Baz) -> i32 {
                deps.baz()
            }
        }",
    )
    .unwrap();
    assert_has(&out, "impl MyImpl2 { fn bar<D>(_: &D) -> u32 { 1337 } fn foo(deps: &impl super::Baz) -> i32 { deps.baz() } }");
    assert_has(&out, "FoobarImpl<EntraitT> for MyImpl2");
    assert_has(&out, "fn bar(__impl: &::entrait::Impl<EntraitT>) -> u32");
    assert_has(&out, "Self::bar(__impl)");
    assert_has(&out, "Self::foo(__impl)");

    let out = expand_impl(
        "dyn",
        "impl FoobarImpl for Implementor2 {
            pub fn bar<D>(_: &D) -> u32 {
                1337
            }

            pub fn foo(deps: &impl super::Baz) -> i32 {
                deps.baz()
            }
        }",
    )
    .unwrap();
    assert_has(&out, "FoobarImpl<EntraitT> for Implementor2");
    assert_has(&out, "fn bar(&self, __impl: &::entrait::Impl<EntraitT>) -> u32");
    assert_has(&out, "Self::foo(__impl)");

    let out = expand_trait("FoobarImpl, delegate_by = Borrow", "trait Foobar { fn foo(&self) -> i32; fn bar(&self) -> u32; }").unwrap();
    assert_has(&out, "trait FoobarImpl<EntraitT>: 'static");
    assert_has(&out, "fn foo(&self, __impl: &::entrait::Impl<EntraitT>) -> i32;");
    assert_has(&out, "::core::borrow::Borrow<dyn FoobarImpl<EntraitT>>");
}

#[test]
fn test_no_mock_test() {
    let out = expand_fn("Foo", "fn foo(_deps: &()) {}").unwrap();
    assert_has(&out, "fn foo(_deps: &()) {}");
    assert_has(&out, "trait Foo { fn foo(&self); }");
    assert_has(&out, "impl Foo for () { fn foo(&self) { foo(self,) } }");
    assert_lacks(&out, "automock");
    assert_lacks(&out, "unimock(");
}

// ---- functions

#[test]
fn function_without_dependency_is_rejected() {
    let err = expand_fn("Foo", "fn foo() {}").unwrap_err();
    assert_eq!(
        err,
        "Function must have a dependency 'receiver' as its first parameter. Pass `no_deps` to entrait to disable dependency injection."
    );
}

#[test]
fn function_with_self_receiver_is_rejected() {
    let err = expand_fn("Foo", "fn foo(&self) {}").unwrap_err();
    assert_eq!(err, "Function cannot have a self receiver");
}

#[test]
fn no_deps_keeps_every_parameter() {
    let out = expand_fn("Foo, no_deps", "fn foo(a: i32, b: i32) -> i32 { a + b }").unwrap();
    assert_has(&out, "trait Foo { fn foo(&self, a: i32, b: i32) -> i32; }");
    assert_has(&out, "{ foo(a, b) }");
}

#[test]
fn generic_dependency_is_implemented_for_every_type() {
    let out = expand_fn("pub Baz", "fn baz<D>(_: &D) -> i32 { 42 }").unwrap();
    assert_has(&out, "pub trait Baz { fn baz(&self) -> i32; }");
    assert_has(&out, "impl<EntraitT: Sync> Baz for ::entrait::Impl<EntraitT> { fn baz(&self) -> i32 { baz(self,) } }");
}

#[test]
fn async_function_returns_a_sendable_future() {
    let out = expand_fn("Foo", "async fn foo(deps: &impl Bar) -> i32 { 42 }").unwrap();
    assert_has(&out, "fn foo(&self) -> impl ::core::future::Future<Output = i32> + ::core::marker::Send;");
    assert_has(&out, "foo(self,).await");
}

#[test]
fn export_variant_ungates_the_mock_attribute() {
    let variant = Variant { flags: vec![FlagOpt::Export], strategy: None };
    let (out, debug) = expand_fn_with("MockallFoo, mockall", MOCKALL_FOO, &variant).unwrap();
    assert_has(&out, "#[::mockall::automock] trait MockallFoo");
    assert_lacks(&out, "cfg_attr");
    assert!(!debug);
}

#[test]
fn explicit_export_option_wins_over_the_variant() {
    let variant = Variant { flags: vec![FlagOpt::Export], strategy: None };
    let (out, _) = expand_fn_with("MockallFoo, mockall, export = false", MOCKALL_FOO, &variant).unwrap();
    assert_has(&out, "#[cfg_attr(test, ::mockall::automock)]");
}

#[test]
fn debug_option_is_reported() {
    let (_, debug) = expand_fn_with("Foo, debug", "fn foo(_deps: &()) {}", &plain_variant()).unwrap();
    assert!(debug);
}

#[test]
fn unimock_variant_with_mock_api_adds_the_unimock_attribute() {
    let variant = Variant { flags: vec![FlagOpt::Unimock], strategy: None };
    let (out, _) = expand_fn_with("Foo, mock_api = FooMock", "fn foo<D>(_: &D) -> i32 { 42 }", &variant).unwrap();
    assert_has(&out, "#[cfg_attr(test, ::entrait::__unimock::unimock(prefix = ::entrait::__unimock, api = [FooMock], unmock_with = [foo]))]");
    assert_has(&out, "impl<EntraitT: Sync> Foo for ::entrait::Impl<EntraitT>");
}

#[test]
fn set_fallbacks_switches_on_only_what_was_not_given() {
    let mut given = parse_fn_attr(&flatten(stream("Foo, export = false")), Span::call_site()).ok().unwrap();
    set_fallbacks(&mut given.opts, &vec![FlagOpt::Export], Span::call_site());
    assert!(!given.opts.export_value());

    let mut absent = parse_fn_attr(&flatten(stream("Foo")), Span::call_site()).ok().unwrap();
    assert!(!absent.opts.export_value());
    set_fallbacks(&mut absent.opts, &vec![FlagOpt::Export], Span::call_site());
    assert!(absent.opts.export_value());
}

// ---- modules

#[test]
fn module_functions_with_visibility_make_the_trait() {
    let out = expand_mod(
        "pub FooBarBazQux",
        "mod foo_bar_baz_qux {
            use super::Dep1;

            pub fn foo(deps: &impl Dep1, arg: i32) {}

            struct Foo {}

            pub(crate) fn qux(deps: &impl super::Dep2) {
                not_included();
            }

            fn not_included() {}
        }",
    )
    .unwrap();
    assert!(out.starts_with(&compact("mod foo_bar_baz_qux { use super::Dep1; pub fn foo(deps: &impl Dep1, arg: i32) {}")), "{}", out);
    assert_has(&out, "pub trait FooBarBazQux { fn foo(&self, arg: i32); fn qux(&self); }");
    assert_has(&out, "pub use foo_bar_baz_qux::FooBarBazQux;");
    assert_has(&out, "fn not_included() {}");
    assert_lacks(&out, "fn not_included(&self");
}

#[test]
fn concrete_dependency_in_module_is_rejected() {
    let err = expand_mod("Foo", "mod m { pub fn foo(deps: &App) {} }").unwrap_err();
    assert!(err.starts_with("Using concrete dependencies in a module is an anti-pattern."), "{}", err);
}

// ---- traits

#[test]
fn unsupported_trait_item_is_rejected() {
    let err = expand_trait("", "trait T { const X: i32; }").unwrap_err();
    assert_eq!(err, "Entrait does not support this kind of trait item.");
}

#[test]
fn custom_delegation_trait_needs_an_implementation_trait() {
    let err = expand_trait("delegate_by = DelegateFoo", "trait Foo { fn foo(&self); }").unwrap_err();
    assert!(err.starts_with("Cannot use a custom delegating trait without a custom trait to delegate to."), "{}", err);
}

#[test]
fn delegation_by_ref_goes_through_as_ref() {
    let out = expand_trait("delegate_by = ref", "trait Foo { fn foo(&self) -> i32; }").unwrap();
    assert_has(&out, "self.as_ref().as_ref().foo()");
    assert_has(&out, "::core::convert::AsRef<dyn Foo>");
}

// ---- impl blocks

#[test]
fn impl_attribute_accepts_only_debug() {
    let err = expand_impl("unimock", "impl A for B { fn a<D>(_: &D) {} }").unwrap_err();
    assert_eq!(err, "Unsupported option");
}

// ---- reading items

fn kind_of(text: &str) -> Result<InputKind, String> {
    classify_input(&flatten(stream(text)), Span::call_site()).map_err(|e| e.message)
}

#[test]
fn classify_input_reads_the_item_kind() {
    assert!(kind_of("pub fn f(_: &()) {}") == Ok(InputKind::Fn));
    assert!(kind_of("#[doc = \"x\"] pub trait T {}") == Ok(InputKind::Trait { unsafety: false, auto_token: false }));
    assert!(kind_of("unsafe auto trait T {}") == Ok(InputKind::Trait { unsafety: true, auto_token: true }));
    assert!(kind_of("pub unsafe trait T {}") == Ok(InputKind::Trait { unsafety: true, auto_token: false }));
    assert!(kind_of("auto trait T {}") == Ok(InputKind::Trait { unsafety: false, auto_token: true }));
    assert!(kind_of("unsafe impl A for B {}") == Ok(InputKind::Impl));
    assert!(kind_of("pub(crate) mod m {}") == Ok(InputKind::Mod));
}

#[test]
fn classify_input_rejects_misplaced_keywords() {
    assert_eq!(kind_of("unsafe mod m {}"), Err("Not allowed here".to_string()));
    assert_eq!(kind_of("auto impl A for B {}"), Err("Not allowed here".to_string()));
}

#[test]
fn split_items_tile_the_input() {
    let toks = flatten(stream("pub fn a() {} struct S; fn b() {} #[x] pub(crate) fn c(); pub fn d() {};"));
    let items = split_items(&toks, true, Span::call_site()).ok().unwrap();
    assert_eq!(items.len(), 5);
    assert_eq!(items[0].start, 0);
    for pair in items.windows(2) {
        assert_eq!(pair[0].end, pair[1].start);
    }
    assert_eq!(items[items.len() - 1].end, toks.len());
    let with_body: Vec<bool> = items.iter().map(|item| item.sig_end.is_some()).collect();
    assert_eq!(with_body, vec![true, false, false, false, true]);
}

#[test]
fn split_items_reports_an_unfinished_item() {
    let toks = flatten(stream("pub fn a() {} pub fn b()"));
    let err = split_items(&toks, true, Span::call_site()).err().unwrap();
    assert_eq!(err.message, "Read past the end");
}

#[test]
fn lowercase_test_decides_which_identifiers_bind() {
    assert_eq!(fixed_param_names("fn f(T(Some, value): T, T(Ok): T)"), vec!["value", "arg1"]);
}

#[test]
fn function_is_left_as_written() {
    let item = "#[inline] pub(crate) fn foo<D: Clone>(deps: &D, x: u8) -> u8 where D: Send { x + 1 }";
    let out = expand_fn("pub Foo", item).unwrap();
    assert!(out.starts_with(&compact(item)), "{}", out);
    assert_has(&out, "pub trait Foo { fn foo(&self, x: u8) -> u8; }");
}

#[test]
fn generated_names_avoid_written_ones() {
    assert_eq!(
        fixed_param_names("fn f(arg1: T, (a, b): T, _arg1: T, _: T)"),
        vec!["arg1", "__arg1", "_arg1", "arg3"],
    );
}

#[test]
fn async_trait_methods_return_sendable_futures() {
    let out = expand_trait("", "trait Foo { async fn foo(&self) -> i32; }").unwrap();
    assert_has(&out, "trait Foo { fn foo(&self) -> impl ::core::future::Future<Output = i32> + ::core::marker::Send; }");
    assert_has(&out, "async fn foo(&self) -> i32 { self.as_ref().foo().await }");
}

#[test]
fn async_trait_attribute_stays_on_trait_and_impl() {
    let out = expand_trait("", "#[async_trait::async_trait] trait Foo { async fn foo(&self) -> i32; }").unwrap();
    assert_has(&out, "#[async_trait::async_trait] trait Foo { async fn foo(&self) -> i32; }");
    assert_has(&out, "#[async_trait::async_trait] impl<EntraitT: Sync> Foo for ::entrait::Impl<EntraitT>");
    assert_has(&out, "self.as_ref().foo().await");
}

#[test]
fn trait_mocks_are_always_exported() {
    let out = expand_trait("unimock", "pub trait Foo { fn foo(&self) -> i32; }").unwrap();
    assert_has(&out, "#[::entrait::__unimock::unimock(prefix = ::entrait::__unimock");
    assert_lacks(&out, "cfg_attr");
    let err = expand_trait("export", "pub trait Foo { fn foo(&self) -> i32; }").unwrap_err();
    assert_eq!(err, "Unsupported option");
}

#[test]
fn send_opt_out_drops_the_send_bound() {
    let out = expand_fn("Spawning, ?Send", "async fn spawning(deps: &impl Bar) -> i32 { 42 }").unwrap();
    assert_has(&out, "fn spawning(&self) -> impl ::core::future::Future<Output = i32>;");
    assert_lacks(&out, "::core::marker::Send");
}

#[test]
fn async_trait_option_selects_boxed_futures() {
    let out = expand_fn("Foo, async_trait", "async fn foo(deps: &impl Bar) -> i32 { 42 }").unwrap();
    let boxed = expand_fn("Foo, box_future", "async fn foo(deps: &impl Bar) -> i32 { 42 }").unwrap();
    assert_eq!(out, boxed);
}

#[test]
fn delegate_by_self_delegates_to_the_type_itself() {
    let out = expand_trait("delegate_by = Self", "trait Foo { fn foo(&self) -> i32; }").unwrap();
    let plain = expand_trait("", "trait Foo { fn foo(&self) -> i32; }").unwrap();
    assert_eq!(out, plain);
    assert_has(&out, "self.as_ref().foo()");
}

#[test]
fn associated_types_stay_in_the_trait() {
    let out = expand_trait("", "trait Foo { type Output; fn foo(&self) -> i32; }").unwrap();
    assert_has(&out, "trait Foo { type Output; fn foo(&self) -> i32; }");
}

#[test]
fn first_parameter_lifetimes_are_detected_after_the_receiver() {
    let sig: syn::Signature = syn::parse_str("fn f(deps: &D, x: &str, y: i32, z: Foo<'_>)").unwrap();
    let model = signature(&sig);
    let mut detector = ElisionDetector::new(ReceiverGeneration::Rewrite);
    detector.detect(&model.inputs);
    assert_eq!(detector.elided_params, vec![0, 2]);
    let mut detector = ElisionDetector::new(ReceiverGeneration::Unchanged);
    detector.detect(&model.inputs);
    assert_eq!(detector.elided_params, vec![0, 1, 3]);
    let sig: syn::Signature = syn::parse_str("fn f(&self, x: &str)").unwrap();
    let model = signature(&sig);
    let mut detector = ElisionDetector::new(ReceiverGeneration::Unchanged);
    detector.detect(&model.inputs);
    assert_eq!(detector.elided_params, vec![0, 1]);
    let sig: syn::Signature = syn::parse_str("fn f(&'a self, x: i32)").unwrap();
    let model = signature(&sig);
    let mut detector = ElisionDetector::new(ReceiverGeneration::Unchanged);
    detector.detect(&model.inputs);
    assert_eq!(detector.elided_params, Vec::<usize>::new());
}

#[test]
fn inline_and_where_bounds_give_the_same_trait() {
    let inline = "fn foo<A: B1 + B2>(app: &A) -> u32 { 42 }";
    let where_clause = "fn foo<A>(app: &A) -> u32 where A: B1 + B2 { 42 }";
    let out1 = expand_fn("Foo", inline).unwrap();
    let out2 = expand_fn("Foo", where_clause).unwrap();
    let generated1 = &out1[compact(inline).len()..];
    let generated2 = &out2[compact(where_clause).len()..];
    assert_eq!(generated1, generated2);
    assert_has(generated1, "trait Foo { fn foo(&self) -> u32; }");
    assert_has(generated1, "where Self: B1 + B2");
}

// ---- bounds on the dependency

#[test]
fn test_simple_test_where_bounds() {
    let out = expand_fn(
        "pub Foo",
        "fn foo<A>(app: &A) -> u32 where A: Bar + Baz { println!(\"Foo\"); app.bar(); app.baz(\"from foo\") }",
    )
    .unwrap();
    assert_has(&out, "pub trait Foo { fn foo(&self) -> u32; }");
    assert_has(&out, "where Self: Bar + Baz");
    assert_has(&out, "{ foo(self,) }");
}

#[test]
fn test_simple_test_impl_bounds() {
    let out = expand_fn(
        "pub Foo",
        "fn foo(deps: &(impl Bar + Baz)) -> u32 { println!(\"Foo\"); deps.bar(); deps.baz(\"from foo\") }",
    )
    .unwrap();
    assert_has(&out, "pub trait Foo { fn foo(&self) -> u32; }");
    assert_has(&out, "where Self: Bar + Baz");
    assert_has(&out, "{ foo(self,) }");
}

#[test]
fn simple_test_where_bounds() {
    let inline = expand_fn("pub Foo", "fn foo<A: Bar + Baz>(app: &A) -> u32 { app.baz(\"from foo\") }").unwrap();
    let where_clause = expand_fn("pub Foo", "fn foo<A>(app: &A) -> u32 where A: Bar + Baz { app.baz(\"from foo\") }").unwrap();
    for out in [&inline, &where_clause] {
        assert_has(out, "pub trait Foo { fn foo(&self) -> u32; }");
        assert_has(out, "where Self: Bar + Baz");
    }
}

#[test]
fn simple_test_impl_bounds() {
    let out = expand_fn("pub Foo", "fn foo(deps: &(impl Bar + Baz)) -> u32 { deps.baz(\"from foo\") }").unwrap();
    assert_has(&out, "pub trait Foo { fn foo(&self) -> u32; }");
    assert_has(&out, "where Self: Bar + Baz");
    assert_lacks(&out, "impl Bar + Baz) -> u32;");
}

// ---- static_async_trait

fn stmts_of(block: &syn::Block) -> Vec<Tok> {
    block.stmts.iter().flat_map(tokens_of).collect()
}

fn static_input(text: &str) -> StaticAsyncInput {
    let item: syn::Item = syn::parse2(stream(text)).expect("item parses");
    match item {
        syn::Item::Trait(item_trait) => {
            let mut header: Vec<Tok> = item_trait.attrs.iter().flat_map(tokens_of).collect();
            header.extend(tokens_of(&item_trait.vis));
            header.extend(tokens_of(&item_trait.trait_token));
            header.extend(tokens_of(&item_trait.ident));
            header.extend(tokens_of(&item_trait.generics));
            if let Some(colon) = &item_trait.colon_token {
                header.extend(tokens_of(colon));
            }
            header.extend(tokens_of(&item_trait.supertraits));
            let items = item_trait
                .items
                .iter()
                .map(|item| match item {
                    syn::TraitItem::Fn(method) => StaticItem::Fn {
                        tokens: tokens_of(item),
                        attrs: method.attrs.iter().flat_map(tokens_of).collect(),
                        vis: Vec::new(),
                        sig: signature(&method.sig),
                        body: method.default.as_ref().map(stmts_of).unwrap_or_default(),
                    },
                    other => StaticItem::Other { tokens: tokens_of(other) },
                })
                .collect();
            StaticAsyncInput::Trait { header, ident_span: item_trait.ident.span(), items }
        }
        syn::Item::Impl(item_impl) => {
            let mut header: Vec<Tok> = item_impl.attrs.iter().flat_map(tokens_of).collect();
            header.extend(tokens_of(&item_impl.impl_token));
            header.extend(tokens_of(&item_impl.generics));
            if let Some((_, path, for_token)) = &item_impl.trait_ {
                header.extend(tokens_of(path));
                header.extend(tokens_of(for_token));
            }
            header.extend(tokens_of(&item_impl.self_ty));
            let items = item_impl
                .items
                .iter()
                .map(|item| match item {
                    syn::ImplItem::Fn(method) => StaticItem::Fn {
                        tokens: tokens_of(item),
                        attrs: method.attrs.iter().flat_map(tokens_of).collect(),
                        vis: tokens_of(&method.vis),
                        sig: signature(&method.sig),
                        body: stmts_of(&method.block),
                    },
                    other => StaticItem::Other { tokens: tokens_of(other) },
                })
                .collect();
            StaticAsyncInput::Impl {
                header,
                impl_span: item_impl.impl_token.span,
                trait_impl: item_impl.trait_.is_some(),
                items,
            }
        }
        other => StaticAsyncInput::Other { span: other.span() },
    }
}

fn static_async(text: &str) -> Result<String, String> {
    let input = static_input(text);
    assert!(static_async_accepts(&input));
    output_tokens(input, Span::call_site()).map(|toks| render(&toks)).map_err(|e| e.message)
}

#[test]
fn static_async_trait_declares_a_future_per_async_method() {
    let out = static_async("trait T { async fn foo(&self) -> i32; fn bar(&self); }").unwrap();
    assert_eq!(
        out,
        compact(
            "trait T { type Fut<'entrait0>: ::core::future::Future<Output = i32> + Send where Self: 'entrait0; \
             fn foo<'entrait0>(&'entrait0 self) -> Self::Fut<'entrait0>; fn bar(&self); }"
        )
    );
}

#[test]
fn static_async_trait_impl_wraps_the_body_in_an_async_block() {
    let out = static_async("impl T for S { #[inline] async fn foo(&self) -> i32 { let x = 1; x + 41 } fn bar(&self) {} }").unwrap();
    assert_eq!(
        out,
        compact(
            "impl T for S { type Fut<'entrait0> = impl ::core::future::Future<Output = i32> where Self: 'entrait0; \
             #[inline] fn foo<'entrait0>(&'entrait0 self) -> Self::Fut<'entrait0> { async move { let x = 1; x + 41 } } \
             fn bar(&self) {} }"
        )
    );
}

#[test]
fn static_async_trait_keeps_user_lifetimes_and_names_the_left_out_ones() {
    let out = static_async("trait T { async fn foo<'a>(&'a self, x: &str) -> &'a str; }").unwrap();
    assert_has(&out, "type Fut<'a, 'entrait1>: ::core::future::Future<Output = &'a str> + Send where Self: 'a;");
    assert_has(&out, "fn foo<'a, 'entrait1>(&'a self, x: &'entrait1 str) -> Self::Fut<'a, 'entrait1>;");
}

#[test]
fn static_async_trait_without_output_yields_unit() {
    let out = static_async("trait T { async fn foo(&self); }").unwrap();
    assert_has(&out, "Future<Output = ()> + Send");
}

#[test]
fn static_async_trait_leaves_inherent_impls_alone() {
    let text = "impl S { async fn foo(&self) -> i32 { 42 } }";
    assert_eq!(static_async(text).unwrap(), compact(text));
}

#[test]
fn static_async_trait_refuses_other_items() {
    assert_eq!(static_async("struct S;"), Err("Cannot make this static-async".to_string()));
}

#[test]
fn static_async_trait_needs_a_first_parameter() {
    assert!(!static_async_accepts(&static_input("trait T { async fn foo(); }")));
    assert!(static_async_accepts(&static_input("trait T { fn foo(); }")));
    assert!(static_async_accepts(&static_input("impl S { async fn foo() {} }")));
}

#[test]
fn static_async_trait_keeps_a_trait_without_async_methods() {
    let text = "pub trait T: Send { type A; fn foo(&self) -> Self::A; }";
    assert_eq!(static_async(text).unwrap(), compact(text));
}

#[test]
fn trait_methods_are_reached_only_with_supported_items_and_fitting_options() {
    let plain = parse_trait(stream("trait T { fn foo(&self, x: i32); type A; }")).unwrap();
    let with_const = parse_trait(stream("trait T { const N: u32; fn foo(&self); }")).unwrap();
    let attr = parse_trait_attr(&flatten(stream("")), Span::call_site()).ok().expect("attribute parses");
    assert!(reaches_methods(&attr, &plain, Span::call_site()));
    assert!(!reaches_methods(&attr, &with_const, Span::call_site()));
    let custom = parse_trait_attr(&flatten(stream("delegate_by = DelegateT")), Span::call_site()).ok().expect("attribute parses");
    assert!(!reaches_methods(&custom, &plain, Span::call_site()));
    assert!(items_plain(&plain.items));
    let pattern = parse_trait(stream("trait T { fn foo(&self, (a, b): (i32, i32)); }")).unwrap();
    assert!(!items_plain(&pattern.items));
}

#[test]
fn where_predicates_on_other_plain_names_are_dropped() {
    let item = "fn foo<A, T: Iterator>(deps: &A, t: T) where A: Bar, T: Clone, Vec<T>: Send, <T as Iterator>::Item: Send {}";
    let out = expand_fn("Foo", item).unwrap();
    let generated = &out[compact(item).len()..];
    assert_has(generated, "trait Foo<T: Iterator> where <T as Iterator>::Item: Send { fn foo(&self, t: T)");
    assert_has(generated, "where Self: Bar");
}

#[test]
fn punctuated_lists_write_start_and_end_only_around_items() {
    let span = Span::call_site();
    let one = |c: char| vec![entrait_macros::tokens::punct(c, Spacing::Alone, span)];
    let word = |s: &str| vec![entrait_macros::tokens::ident(s, span)];
    let mut out = word("x");
    entrait_macros::tokens::push_punctuated(&mut out, one('<'), &vec![], one(','), one('>'));
    assert_eq!(render(&out), "x");
    let mut out = word("x");
    entrait_macros::tokens::push_punctuated(&mut out, one('<'), &vec![word("a")], one(','), one('>'));
    assert_eq!(render(&out), "x<a>");
    let mut out = word("x");
    entrait_macros::tokens::push_punctuated(&mut out, one('<'), &vec![word("a"), word("b"), word("c")], one(','), one('>'));
    assert_eq!(render(&out), "x<a,b,c>");
}
