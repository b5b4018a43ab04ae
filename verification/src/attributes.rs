//! Attributes put on generated traits: mocking, delegation and async support.

use vstd::prelude::*;
use proc_macro2::Span;
use crate::analyze_generics::FnDeps;
use crate::generics::{TraitIndirection, any_async, has_any_async};
use crate::idents::CrateIdents;
use crate::model::{FnArg, FnArgV, Ident, IdentV, PatModel, PatV, args_view};
use crate::opt::{AsyncStrategy, MockApiIdent, Opts, SpanOpt, flag, or_default};
use crate::render::comma;
use crate::tokens::{
    Delimiter, Spacing, Tok, TokV, tv, ident_v, punct_v, open_v, close_v, path_sep_v, join, items_view, push_tok,
    push_ident, push_punct, push_path_sep, push_open, push_close, push_joined, ident_of, extend,
};
use crate::trait_fn::{FnInputMode, TraitFn, TraitFnV, fns_view};
use crate::analyze_generics::FnDepsV;

verus! {

/// Something that writes tokens.
pub trait WriteTokens {
    spec fn spec_tokens(&self) -> Seq<TokV>;

    fn write_tokens(&self, out: &mut Vec<Tok>)
        ensures
            tv(final(out)@) == tv(old(out)@) + self.spec_tokens(),
    ;
}

/// Whether attribute parameters say nothing, so that no attribute is written.
pub trait IsEmpty {
    spec fn spec_is_empty(&self) -> bool;

    fn is_empty(&self) -> (r: bool)
        ensures
            r == self.spec_is_empty(),
    ;
}

/// `#[params]`
pub struct Attr<P>(pub P, pub Span);

pub open spec fn attr_toks(params: Seq<TokV>, span: Span) -> Seq<TokV> {
    seq![punct_v('#', Spacing::Alone, span), open_v(Delimiter::Bracket, span)] + params + seq![close_v(Delimiter::Bracket, span)]
}

impl<P: WriteTokens> WriteTokens for Attr<P> {
    open spec fn spec_tokens(&self) -> Seq<TokV> {
        attr_toks(self.0.spec_tokens(), self.1)
    }

    fn write_tokens(&self, out: &mut Vec<Tok>) {
        let ghost base = tv(out@);
        push_punct(out, '#', self.1);
        push_open(out, Delimiter::Bracket, self.1);
        self.0.write_tokens(out);
        push_close(out, Delimiter::Bracket, self.1);
        assert(tv(out@) =~= base + attr_toks(self.0.spec_tokens(), self.1));
    }
}

/// An attribute that only applies under `cfg(test)` unless mocks are exported.
pub struct ExportGatedAttr<'a, P> {
    pub params: P,
    pub opts: &'a Opts,
    pub span: Span,
}

/// `#[params]` when exporting, `#[cfg_attr(test, params)]` otherwise.
pub open spec fn export_gated_toks(params: Seq<TokV>, export: bool, span: Span) -> Seq<TokV> {
    attr_toks(
        if export {
            params
        } else {
            seq![ident_v("cfg_attr"@, span), open_v(Delimiter::Parenthesis, span), ident_v("test"@, span), punct_v(',', Spacing::Alone, span)]
                + params + seq![close_v(Delimiter::Parenthesis, span)]
        },
        span,
    )
}

impl<'a, P: WriteTokens + IsEmpty> WriteTokens for ExportGatedAttr<'a, P> {
    open spec fn spec_tokens(&self) -> Seq<TokV> {
        if self.params.spec_is_empty() {
            Seq::empty()
        } else {
            export_gated_toks(self.params.spec_tokens(), flag(self.opts.export), self.span)
        }
    }

    fn write_tokens(&self, out: &mut Vec<Tok>) {
        let ghost base = tv(out@);
        if self.params.is_empty() {
            assert(tv(out@) =~= base + Seq::<TokV>::empty());
            return;
        }
        let span = self.span;
        proof {
            reveal_strlit("cfg_attr");
            reveal_strlit("test");
        }
        push_punct(out, '#', span);
        push_open(out, Delimiter::Bracket, span);
        let ghost a = tv(out@);
        if self.opts.export_value() {
            self.params.write_tokens(out);
        } else {
            push_ident(out, "cfg_attr", span);
            push_open(out, Delimiter::Parenthesis, span);
            push_ident(out, "test", span);
            push_punct(out, ',', span);
            self.params.write_tokens(out);
            push_close(out, Delimiter::Parenthesis, span);
        }
        push_close(out, Delimiter::Bracket, span);
        assert(tv(out@) =~= base + export_gated_toks(self.params.spec_tokens(), flag(self.opts.export), span));
    }
}

/// `::entrait::entrait(unimock = false, mockall = false)`: the trait of a concrete dependency
/// gets its `Impl<T>` implementation by entrait itself.
pub struct EntraitForTraitParams<'a> {
    pub crate_idents: &'a CrateIdents,
    pub span: Span,
}

pub open spec fn entrait_ident_v(c: CrateIdents) -> TokV {
    ident_v(c.entrait.name@, c.entrait.span)
}

/// `::entrait::entrait(unimock = false, mockall = false)`
pub open spec fn entrait_for_trait_toks(c: CrateIdents, span: Span) -> Seq<TokV> {
    path_sep_v(span) + seq![entrait_ident_v(c)] + path_sep_v(span) + seq![entrait_ident_v(c)]
        + seq![
            open_v(Delimiter::Parenthesis, span),
            ident_v("unimock"@, span), punct_v('=', Spacing::Alone, span), ident_v("false"@, span),
            punct_v(',', Spacing::Alone, span),
            ident_v("mockall"@, span), punct_v('=', Spacing::Alone, span), ident_v("false"@, span),
            close_v(Delimiter::Parenthesis, span)
        ]
}

/// `::mockall::automock`
pub open spec fn automock_toks(span: Span) -> Seq<TokV> {
    path_sep_v(span) + seq![ident_v("mockall"@, span)] + path_sep_v(span) + seq![ident_v("automock"@, span)]
}

impl<'a> WriteTokens for EntraitForTraitParams<'a> {
    open spec fn spec_tokens(&self) -> Seq<TokV> {
        entrait_for_trait_toks(*self.crate_idents, self.span)
    }

    fn write_tokens(&self, out: &mut Vec<Tok>) {
        let ghost base = tv(out@);
        let span = self.span;
        proof {
            reveal_strlit("unimock");
            reveal_strlit("mockall");
            reveal_strlit("false");
        }
        push_path_sep(out, span);
        push_tok(out, ident_of(&self.crate_idents.entrait.name, self.crate_idents.entrait.span));
        push_path_sep(out, span);
        push_tok(out, ident_of(&self.crate_idents.entrait.name, self.crate_idents.entrait.span));
        push_open(out, Delimiter::Parenthesis, span);
        push_ident(out, "unimock", span);
        push_punct(out, '=', span);
        push_ident(out, "false", span);
        push_punct(out, ',', span);
        push_ident(out, "mockall", span);
        push_punct(out, '=', span);
        push_ident(out, "false", span);
        push_close(out, Delimiter::Parenthesis, span);
        assert(tv(out@) =~= base + entrait_for_trait_toks(*self.crate_idents, span));
    }
}

/// The parameters of the unimock attribute of a generated trait.
pub struct UnimockAttrParams<'s> {
    pub trait_ident: &'s Ident,
    pub mock_api: Option<&'s MockApiIdent>,
    pub trait_indirection: TraitIndirection,
    pub crate_idents: &'s CrateIdents,
    pub trait_fns: &'s Vec<TraitFn>,
    pub fn_input_mode: &'s FnInputMode<'s>,
    pub span: Span,
}

/// The names of typed parameters with identifier patterns.
pub open spec fn ident_args(args: Seq<FnArgV>) -> Seq<Seq<TokV>>
    decreases args.len(),
{
    if args.len() == 0 {
        Seq::empty()
    } else {
        ident_args(args.drop_last()) + match args.last() {
            FnArgV::Typed { pat: PatV::Ident { ident, span, .. }, .. } => seq![seq![ident_v(ident, span)]],
            _ => Seq::empty(),
        }
    }
}

/// What unmocking calls for one function: the function itself with a generic dependency, `_`
/// with a concrete one, and a call with the parameters without dependency.
pub open spec fn unmock_item(f: TraitFnV, span: Span) -> Seq<TokV> {
    let name = ident_v(f.sig.ident, f.sig.span);
    match f.deps {
        FnDepsV::Generic { .. } => seq![name],
        FnDepsV::Concrete(_) => seq![ident_v("_"@, span)],
        FnDepsV::NoDeps => seq![name, open_v(Delimiter::Parenthesis, span)]
            + join(ident_args(f.sig.inputs), comma(span))
            + seq![close_v(Delimiter::Parenthesis, span)],
    }
}

/// `unmock_with = [...]`
pub open spec fn unmock_with_toks(fns: Seq<TraitFnV>, span: Span) -> Seq<TokV> {
    seq![ident_v("unmock_with"@, span), punct_v('=', Spacing::Alone, span), open_v(Delimiter::Bracket, span)]
        + join(fns.map_values(|f: TraitFnV| unmock_item(f, span)), comma(span))
        + seq![close_v(Delimiter::Bracket, span)]
}

/// `prefix = ::entrait::__unimock`
pub open spec fn prefix_item(c: CrateIdents, span: Span) -> Seq<TokV> {
    seq![ident_v("prefix"@, span), punct_v('=', Spacing::Alone, span)] + path_sep_v(span) + seq![entrait_ident_v(c)]
        + path_sep_v(span) + seq![ident_v(c.__unimock.name@, c.__unimock.span)]
}

/// `api = Api`, and `api = [Api]` for a single function, whose mock API is flattened.
pub open spec fn api_item(api: IdentV, single_fn: bool, span: Span) -> Seq<TokV> {
    seq![ident_v("api"@, span), punct_v('=', Spacing::Alone, span)] + if single_fn {
        seq![open_v(Delimiter::Bracket, span), ident_v(api.name, api.span), close_v(Delimiter::Bracket, span)]
    } else {
        seq![ident_v(api.name, api.span)]
    }
}

/// The parameters of the unimock attribute: the prefix, the mock API if it is named, and what
/// unmocking calls, except on a trait that was written by hand.
pub open spec fn unimock_items(c: CrateIdents, api: Option<IdentV>, single_fn: bool, raw: bool, fns: Seq<TraitFnV>, span: Span) -> Seq<Seq<TokV>> {
    seq![prefix_item(c, span)]
        + (match api {
            Some(a) => seq![api_item(a, single_fn, span)],
            None => Seq::empty(),
        })
        + (if !raw && fns.len() > 0 { seq![unmock_with_toks(fns, span)] } else { Seq::empty() })
}

/// `::entrait::__unimock::unimock(...)`, or nothing for a plain trait without mock API.
pub open spec fn unimock_toks(c: CrateIdents, ti: TraitIndirection, api: Option<IdentV>, single_fn: bool, raw: bool, fns: Seq<TraitFnV>, span: Span) -> Seq<TokV> {
    if ti == TraitIndirection::Plain && api is None {
        Seq::empty()
    } else {
        path_sep_v(span) + seq![entrait_ident_v(c)]
            + path_sep_v(span) + seq![ident_v(c.__unimock.name@, c.__unimock.span)]
            + path_sep_v(span) + seq![ident_v(c.unimock.name@, c.unimock.span)]
            + seq![open_v(Delimiter::Parenthesis, span)]
            + join(unimock_items(c, api, single_fn, raw, fns, span), comma(span))
            + seq![close_v(Delimiter::Parenthesis, span)]
    }
}

pub open spec fn api_view(m: Option<&MockApiIdent>) -> Option<IdentV> {
    match m {
        Some(a) => Some(a.0@),
        None => None,
    }
}

impl<'s> UnimockAttrParams<'s> {
    pub open spec fn items(&self) -> Seq<Seq<TokV>> {
        unimock_items(*self.crate_idents, api_view(self.mock_api), *self.fn_input_mode is SingleFn, *self.fn_input_mode is RawTrait, fns_view(self.trait_fns@), self.span)
    }

    fn push_unmock_with(&self, out: &mut Vec<Tok>)
        ensures
            tv(final(out)@) == tv(old(out)@) + unmock_with_toks(fns_view(self.trait_fns@), self.span),
    {
        let span = self.span;
        let ghost base = tv(out@);
        proof { reveal_strlit("unmock_with"); reveal_strlit("_"); }
        push_ident(out, "unmock_with", span);
        push_punct(out, '=', span);
        push_open(out, Delimiter::Bracket, span);
        let ghost all = fns_view(self.trait_fns@).map_values(|f: TraitFnV| unmock_item(f, span));
        let mut items: Vec<Vec<Tok>> = Vec::new();
        let mut i: usize = 0;
        while i < self.trait_fns.len()
            invariant
                i <= self.trait_fns@.len(),
                span == self.span,
                all == fns_view(self.trait_fns@).map_values(|f: TraitFnV| unmock_item(f, span)),
                items_view(items@) == all.take(i as int),
            decreases self.trait_fns@.len() - i,
        {
            let f = &self.trait_fns[i];
            let sig = &f.entrait_sig.sig;
            let mut item: Vec<Tok> = Vec::new();
            match &f.deps {
                FnDeps::Generic { .. } => {
                    push_tok(&mut item, ident_of(&sig.ident, sig.span));
                },
                FnDeps::Concrete(_) => {
                    push_ident(&mut item, "_", span);
                },
                FnDeps::NoDeps => {
                    push_tok(&mut item, ident_of(&sig.ident, sig.span));
                    push_open(&mut item, Delimiter::Parenthesis, span);
                    let args = ident_arg_items(&sig.inputs);
                    push_joined(&mut item, &args, crate::tokens::punct_vec(',', span));
                    push_close(&mut item, Delimiter::Parenthesis, span);
                },
            }
            assert(tv(item@) =~= unmock_item(f@, span));
            let ghost before = items_view(items@);
            items.push(item);
            assert(items_view(items@) =~= before.push(all[i as int]));
            assert(all.take(i + 1) =~= all.take(i as int).push(all[i as int]));
            i = i + 1;
        }
        assert(all.take(self.trait_fns@.len() as int) =~= all);
        push_joined(out, &items, crate::tokens::punct_vec(',', span));
        push_close(out, Delimiter::Bracket, span);
        assert(tv(out@) =~= base + unmock_with_toks(fns_view(self.trait_fns@), span));
    }
}

/// The names of typed parameters with identifier patterns, one item each.
pub fn ident_arg_items(args: &Vec<FnArg>) -> (r: Vec<Vec<Tok>>)
    ensures
        items_view(r@) == ident_args(args_view(args@)),
{
    let ghost av = args_view(args@);
    let mut r: Vec<Vec<Tok>> = Vec::new();
    let mut i: usize = 0;
    assert(av.take(0) =~= Seq::<FnArgV>::empty());
    while i < args.len()
        invariant
            i <= args@.len(),
            av == args_view(args@),
            items_view(r@) == ident_args(av.take(i as int)),
        decreases args@.len() - i,
    {
        let ghost t = av.take(i + 1);
        assert(t.drop_last() =~= av.take(i as int));
        assert(t.last() == args@[i as int]@);
        match &args[i] {
            FnArg::Typed { pat: PatModel::Ident { ident, span, .. }, .. } => {
                let mut item: Vec<Tok> = Vec::new();
                push_tok(&mut item, ident_of(ident, *span));
                assert(tv(item@) =~= seq![ident_v(ident@, *span)]);
                let ghost before = items_view(r@);
                r.push(item);
                assert(items_view(r@) =~= before + seq![seq![ident_v(ident@, *span)]]);
            },
            _ => {
                assert(items_view(r@) =~= ident_args(t));
            },
        }
        i = i + 1;
    }
    assert(av.take(args@.len() as int) =~= av);
    r
}

impl<'s> IsEmpty for UnimockAttrParams<'s> {
    open spec fn spec_is_empty(&self) -> bool {
        self.trait_indirection == TraitIndirection::Plain && self.mock_api is None
    }

    fn is_empty(&self) -> (r: bool) {
        self.trait_indirection == TraitIndirection::Plain && self.mock_api.is_none()
    }
}

impl<'s> WriteTokens for UnimockAttrParams<'s> {
    /// `::entrait::__unimock::unimock(prefix = .., api = .., unmock_with = [..])`
    open spec fn spec_tokens(&self) -> Seq<TokV> {
        unimock_toks(*self.crate_idents, self.trait_indirection, api_view(self.mock_api), *self.fn_input_mode is SingleFn, *self.fn_input_mode is RawTrait, fns_view(self.trait_fns@), self.span)
    }

    fn write_tokens(&self, out: &mut Vec<Tok>) {
        let ghost base = tv(out@);
        if self.is_empty() {
            assert(tv(out@) =~= base + Seq::<TokV>::empty());
            return;
        }
        let span = self.span;
        let c = self.crate_idents;
        proof {
            reveal_strlit("prefix");
            reveal_strlit("api");
        }
        push_path_sep(out, span);
        push_tok(out, ident_of(&c.entrait.name, c.entrait.span));
        push_path_sep(out, span);
        push_tok(out, ident_of(&c.__unimock.name, c.__unimock.span));
        push_path_sep(out, span);
        push_tok(out, ident_of(&c.unimock.name, c.unimock.span));
        push_open(out, Delimiter::Parenthesis, span);
        let ghost head = tv(out@);

        let mut items: Vec<Vec<Tok>> = Vec::new();
        let mut prefix: Vec<Tok> = Vec::new();
        push_ident(&mut prefix, "prefix", span);
        push_punct(&mut prefix, '=', span);
        push_path_sep(&mut prefix, span);
        push_tok(&mut prefix, ident_of(&c.entrait.name, c.entrait.span));
        push_path_sep(&mut prefix, span);
        push_tok(&mut prefix, ident_of(&c.__unimock.name, c.__unimock.span));
        assert(tv(prefix@) =~= prefix_item(*c, span));
        items.push(prefix);
        match self.mock_api {
            Some(api) => {
                let mut item: Vec<Tok> = Vec::new();
                push_ident(&mut item, "api", span);
                push_punct(&mut item, '=', span);
                let single = match self.fn_input_mode {
                    FnInputMode::SingleFn(_) => true,
                    _ => false,
                };
                if single {
                    push_open(&mut item, Delimiter::Bracket, span);
                    push_tok(&mut item, ident_of(&api.0.name, api.0.span));
                    push_close(&mut item, Delimiter::Bracket, span);
                } else {
                    push_tok(&mut item, ident_of(&api.0.name, api.0.span));
                }
                assert(tv(item@) =~= api_item(api.0@, *self.fn_input_mode is SingleFn, span));
                items.push(item);
            },
            None => {},
        }
        let raw = match self.fn_input_mode {
            FnInputMode::RawTrait(_) => true,
            _ => false,
        };
        if !raw && self.trait_fns.len() > 0 {
            let mut item: Vec<Tok> = Vec::new();
            self.push_unmock_with(&mut item);
            assert(tv(item@) =~= unmock_with_toks(fns_view(self.trait_fns@), span));
            items.push(item);
        }
        assert(items_view(items@) =~= self.items());
        push_joined(out, &items, crate::tokens::punct_vec(',', span));
        push_close(out, Delimiter::Parenthesis, span);
        assert(tv(out@) =~= base + self.spec_tokens());
    }
}

/// `::mockall::automock`
pub struct MockallAutomockParams {
    pub span: Span,
}

impl IsEmpty for MockallAutomockParams {
    open spec fn spec_is_empty(&self) -> bool {
        false
    }

    fn is_empty(&self) -> (r: bool) {
        false
    }
}

impl WriteTokens for MockallAutomockParams {
    open spec fn spec_tokens(&self) -> Seq<TokV> {
        automock_toks(self.span)
    }

    fn write_tokens(&self, out: &mut Vec<Tok>) {
        let ghost base = tv(out@);
        proof {
            reveal_strlit("mockall");
            reveal_strlit("automock");
        }
        push_path_sep(out, self.span);
        push_ident(out, "mockall", self.span);
        push_path_sep(out, self.span);
        push_ident(out, "automock", self.span);
        assert(tv(out@) =~= base + self.spec_tokens());
    }
}

/// The path of an async-trait attribute: the static variant for associated futures.
pub struct AsyncTraitParams<'a> {
    pub crate_idents: &'a CrateIdents,
    pub use_static: bool,
    pub span: Span,
}

impl<'a> WriteTokens for AsyncTraitParams<'a> {
    /// `::entrait::static_async::async_trait` or `::entrait::__async_trait::async_trait`
    open spec fn spec_tokens(&self) -> Seq<TokV> {
        let span = self.span;
        path_sep_v(span) + seq![entrait_ident_v(*self.crate_idents)] + path_sep_v(span)
            + seq![ident_v(if self.use_static { "static_async"@ } else { "__async_trait"@ }, span)]
            + path_sep_v(span) + seq![ident_v("async_trait"@, span)]
    }

    fn write_tokens(&self, out: &mut Vec<Tok>) {
        let ghost base = tv(out@);
        let span = self.span;
        proof {
            reveal_strlit("static_async");
            reveal_strlit("__async_trait");
            reveal_strlit("async_trait");
        }
        push_path_sep(out, span);
        push_tok(out, ident_of(&self.crate_idents.entrait.name, self.crate_idents.entrait.span));
        push_path_sep(out, span);
        if self.use_static {
            push_ident(out, "static_async", span);
        } else {
            push_ident(out, "__async_trait", span);
        }
        push_path_sep(out, span);
        push_ident(out, "async_trait", span);
        assert(tv(out@) =~= base + self.spec_tokens());
    }
}

/// The async-trait attribute that the async strategy asks for, when some method is `async`.
pub fn opt_async_trait_attr<'s>(opts: &'s Opts, crate_idents: &'s CrateIdents, trait_fns: &Vec<TraitFn>) -> (r: Option<Attr<AsyncTraitParams<'s>>>)
    ensures
        ({
            let s = or_default(opts.async_strategy, AsyncStrategy::NoHack, opts.default_span);
            match r {
                Some(a) => any_async(fns_view(trait_fns@)) && s.0 != AsyncStrategy::NoHack
                    && a.0.crate_idents == crate_idents && a.0.use_static == (s.0 == AsyncStrategy::AssociatedFuture)
                    && a.0.span == s.1 && a.1 == s.1,
                None => !any_async(fns_view(trait_fns@)) || s.0 == AsyncStrategy::NoHack,
            }
        }),
{
    let strategy = opts.async_strategy();
    if !has_any_async(trait_fns) {
        return None;
    }
    match strategy.0 {
        AsyncStrategy::BoxFuture => Some(Attr(AsyncTraitParams { crate_idents, use_static: false, span: strategy.1 }, strategy.1)),
        AsyncStrategy::AssociatedFuture => Some(Attr(AsyncTraitParams { crate_idents, use_static: true, span: strategy.1 }, strategy.1)),
        AsyncStrategy::NoHack => None,
    }
}


proof fn lemma_join_single_tokens(items: Seq<Seq<TokV>>, sep: TokV)
    requires
        items.len() > 0,
        forall|i: int| 0 <= i < items.len() ==> (#[trigger] items[i]).len() == 1,
    ensures
        join(items, seq![sep]).len() == 2 * items.len() - 1,
        forall|i: int| 0 <= i < items.len() ==> join(items, seq![sep])[2 * i] == (#[trigger] items[i])[0],
        forall|i: int| 0 <= i < items.len() - 1 ==> #[trigger] join(items, seq![sep])[2 * i + 1] == sep,
    decreases items.len(),
{
    if items.len() > 1 {
        let init = items.drop_last();
        assert forall|i: int| 0 <= i < init.len() implies (#[trigger] init[i]).len() == 1 by {
            assert(init[i] == items[i]);
        }
        lemma_join_single_tokens(init, sep);
        let j = join(items, seq![sep]);
        let ji = join(init, seq![sep]);
        assert(j == ji + seq![sep] + items.last());
        assert forall|i: int| 0 <= i < items.len() implies join(items, seq![sep])[2 * i] == (#[trigger] items[i])[0] by {
            if i < init.len() {
                assert(init[i] == items[i]);
                assert(ji[2 * i] == init[i][0]);
            }
        }
        assert forall|i: int| 0 <= i < items.len() - 1 implies #[trigger] join(items, seq![sep])[2 * i + 1] == sep by {
            if i < init.len() - 1 {
                assert(ji[2 * i + 1] == sep);
            }
        }
    }
}

/// A receiver, then typed parameters each written as a plain identifier.
pub open spec fn receiver_then_plain_params(args: Seq<FnArgV>) -> bool {
    &&& args.len() >= 1
    &&& args[0] is Receiver
    &&& forall|i: int| 1 <= i < args.len() ==> (#[trigger] args[i] matches FnArgV::Typed { pat: PatV::Ident { .. }, .. })
}

proof fn lemma_ident_args_of_plain(args: Seq<FnArgV>)
    requires
        receiver_then_plain_params(args),
    ensures
        ident_args(args).len() == args.len() - 1,
        forall|i: int| 0 <= i < args.len() - 1 ==> #[trigger] ident_args(args)[i]
            == seq![ident_v(args[i + 1]->Typed_pat->Ident_ident, args[i + 1]->Typed_pat->Ident_span)],
    decreases args.len(),
{
    if args.len() == 1 {
        assert(args.drop_last() =~= Seq::<FnArgV>::empty());
        assert(ident_args(args.drop_last()) == Seq::<Seq<TokV>>::empty());
    } else {
        let init = args.drop_last();
        assert forall|i: int| 1 <= i < init.len() implies (#[trigger] init[i] matches FnArgV::Typed { pat: PatV::Ident { .. }, .. }) by {
            assert(init[i] == args[i]);
        }
        assert(init[0] == args[0]);
        lemma_ident_args_of_plain(init);
        assert(args.last() == args[args.len() - 1]);
        assert forall|i: int| 0 <= i < args.len() - 1 implies #[trigger] ident_args(args)[i]
            == seq![ident_v(args[i + 1]->Typed_pat->Ident_ident, args[i + 1]->Typed_pat->Ident_span)] by {
            if i < init.len() - 1 {
                assert(init[i + 1] == args[i + 1]);
            }
        }
    }
}

/// What unimock is told to unmock a method with: for a function with a generic dependency,
/// the bare function name (called with the mock as its dependency); for a function without
/// dependency, the function name followed by its parameters' names in parentheses, separated
/// by commas and in order, since the mock is not passed to it.
pub proof fn lemma_unmock_item_calls(f: TraitFnV, span: Span)
    requires
        receiver_then_plain_params(f.sig.inputs),
    ensures
        ({
            let u = unmock_item(f, span);
            let n = f.sig.inputs.len();
            let name = ident_v(f.sig.ident, f.sig.span);
            &&& (f.deps is Generic ==> u == seq![name])
            &&& (f.deps is NoDeps ==> {
                &&& u.len() == if n == 1 { 3 } else { 2 * n }
                &&& u[0] == name
                &&& u[1] == open_v(Delimiter::Parenthesis, span)
                &&& u[u.len() - 1] == close_v(Delimiter::Parenthesis, span)
                &&& forall|j: int| 1 <= j < n ==> #[trigger] u[2 * j]
                    == ident_v(f.sig.inputs[j]->Typed_pat->Ident_ident, f.sig.inputs[j]->Typed_pat->Ident_span)
                &&& forall|j: int| 1 <= j < n - 1 ==> #[trigger] u[2 * j + 1] == punct_v(',', Spacing::Alone, span)
            })
        }),
{
    let args = f.sig.inputs;
    lemma_ident_args_of_plain(args);
    if f.deps is NoDeps {
        let items = ident_args(args);
        let name = ident_v(f.sig.ident, f.sig.span);
        let u = unmock_item(f, span);
        let j = join(items, comma(span));
        assert(u == seq![name, open_v(Delimiter::Parenthesis, span)] + j + seq![close_v(Delimiter::Parenthesis, span)]);
        if items.len() == 0 {
            assert(j == Seq::<TokV>::empty());
        } else {
            assert forall|i: int| 0 <= i < items.len() implies (#[trigger] items[i]).len() == 1 by {}
            lemma_join_single_tokens(items, punct_v(',', Spacing::Alone, span));
            assert(comma(span) == seq![punct_v(',', Spacing::Alone, span)]);
            assert forall|k: int| 1 <= k < args.len() implies #[trigger] u[2 * k]
                == ident_v(args[k]->Typed_pat->Ident_ident, args[k]->Typed_pat->Ident_span) by {
                assert(u[2 * k] == j[2 * (k - 1)]);
                assert(items[k - 1][0] == ident_v(args[k]->Typed_pat->Ident_ident, args[k]->Typed_pat->Ident_span));
            }
            assert forall|k: int| 1 <= k < args.len() - 1 implies #[trigger] u[2 * k + 1] == punct_v(',', Spacing::Alone, span) by {
                assert(u[2 * k + 1] == j[2 * (k - 1) + 1]);
            }
        }
    }
}


/// Each function gets its item in the `unmock_with` list, in order and separated by commas:
/// adding a function to a non-empty list adds `, <its item>` before the closing bracket, and a
/// single function's list is exactly its item.
pub proof fn lemma_unmock_with_lists_each_fn(fns: Seq<TraitFnV>, f: TraitFnV, span: Span)
    ensures
        unmock_with_toks(seq![f], span) == seq![ident_v("unmock_with"@, span), punct_v('=', Spacing::Alone, span), open_v(Delimiter::Bracket, span)]
            + unmock_item(f, span) + seq![close_v(Delimiter::Bracket, span)],
        fns.len() > 0 ==> unmock_with_toks(fns.push(f), span) == unmock_with_toks(fns, span).drop_last()
            + seq![punct_v(',', Spacing::Alone, span)] + unmock_item(f, span) + seq![close_v(Delimiter::Bracket, span)],
{
    let items1 = seq![f].map_values(|x: TraitFnV| unmock_item(x, span));
    assert(items1 =~= seq![unmock_item(f, span)]);
    assert(join(items1, comma(span)) == unmock_item(f, span));
    if fns.len() > 0 {
        let a = fns.map_values(|x: TraitFnV| unmock_item(x, span));
        let b = fns.push(f).map_values(|x: TraitFnV| unmock_item(x, span));
        assert(b =~= a.push(unmock_item(f, span)));
        assert(b.drop_last() =~= a);
        assert(join(b, comma(span)) == join(a, comma(span)) + comma(span) + unmock_item(f, span));
        let head = seq![ident_v("unmock_with"@, span), punct_v('=', Spacing::Alone, span), open_v(Delimiter::Bracket, span)];
        let w = unmock_with_toks(fns, span);
        assert(w == head + join(a, comma(span)) + seq![close_v(Delimiter::Bracket, span)]);
        assert(w.drop_last() =~= head + join(a, comma(span)));
        assert(unmock_with_toks(fns.push(f), span) =~= w.drop_last() + seq![punct_v(',', Spacing::Alone, span)] + unmock_item(f, span) + seq![close_v(Delimiter::Bracket, span)]);
    }
}

} // verus!
