//! The options of the `entrait` attribute, and their defaults.

use vstd::prelude::*;
use proc_macro2::Span;
use crate::model::{Ident, IdentV};

verus! {

/// Whether a mock implementation is generated.
#[derive(Clone, Copy, PartialEq, Eq, Structural, Debug)]
pub enum Mockable {
    Yes,
    No,
}

impl Mockable {
    pub fn yes(self) -> (r: bool)
        ensures
            r <==> self == Mockable::Yes,
    {
        matches!(self, Mockable::Yes)
    }
}

/// How `async fn`s of a generated trait are written.
#[derive(Clone, Copy, PartialEq, Eq, Structural, Debug)]
pub enum AsyncStrategy {
    NoHack,
    BoxFuture,
    AssociatedFuture,
}

/// The standard trait through which an `Impl<T>` reaches its implementation.
#[derive(Clone, Copy, PartialEq, Eq, Structural, Debug)]
pub enum RefDelegate {
    AsRef,
    Borrow,
}

/// How the `Impl<T>` implementation of an entraited trait delegates.
pub enum Delegate {
    BySelf,
    ByRef(RefDelegate),
    ByTrait(Ident),
}

pub enum DelegateV {
    BySelf,
    ByRef(RefDelegate),
    ByTrait(IdentV),
}

impl View for Delegate {
    type V = DelegateV;

    open spec fn view(&self) -> DelegateV {
        match self {
            Delegate::BySelf => DelegateV::BySelf,
            Delegate::ByRef(r) => DelegateV::ByRef(*r),
            Delegate::ByTrait(i) => DelegateV::ByTrait(i@),
        }
    }
}

/// A value together with the source location it came from.
#[derive(Clone, Copy)]
pub struct SpanOpt<T>(pub T, pub Span);

impl<T> SpanOpt<T> {
    /// The value, located at the macro invocation.
    pub fn of(value: T) -> (r: SpanOpt<T>)
        ensures
            r.0 == value,
    {
        SpanOpt(value, crate::span::call_site())
    }

    pub fn value(&self) -> (r: &T)
        ensures
            *r == self.0,
    {
        &self.0
    }
}

/// The identifier that names a mock API.
pub struct MockApiIdent(pub Ident);

/// The options given to an `entrait` attribute. Unset options are `None`.
pub struct Opts {
    pub default_span: Span,
    pub no_deps: Option<SpanOpt<bool>>,
    pub debug: Option<SpanOpt<bool>>,
    pub async_strategy: Option<SpanOpt<AsyncStrategy>>,
    /// Whether to export mocks (i.e. not gated with cfg(test))
    pub export: Option<SpanOpt<bool>>,
    pub mock_api: Option<MockApiIdent>,
    /// Mocking with unimock
    pub unimock: Option<SpanOpt<bool>>,
    /// Mocking with mockall
    pub mockall: Option<SpanOpt<bool>>,
    /// Whether the futures of generated async methods are `Send` (`?Send` opts out)
    pub future_send: Option<SpanOpt<bool>>,
}

/// The value of an option, or the default at the default span.
pub open spec fn or_default<T>(option: Option<SpanOpt<T>>, default: T, span: Span) -> SpanOpt<T> {
    match option {
        Some(o) => o,
        None => SpanOpt(default, span),
    }
}

/// The value of a flag: unset means `false`.
pub open spec fn flag(option: Option<SpanOpt<bool>>) -> bool {
    match option {
        Some(o) => o.0,
        None => false,
    }
}

/// An option that is switched on, at `span`, when asked for and not given.
pub open spec fn fallback(o: Option<SpanOpt<bool>>, on: bool, span: Span) -> Option<SpanOpt<bool>> {
    if on && o is None { Some(SpanOpt(true, span)) } else { o }
}

pub open spec fn has_flag(flags: Seq<FlagOpt>, f: FlagOpt) -> bool {
    exists|i: int| 0 <= i < flags.len() && flags[i] == f
}

/// The options of a macro variant: its flags are switched on and its async strategy is
/// used, unless the attribute gave them.
pub open spec fn with_variant(o: Opts, flags: Seq<FlagOpt>, strategy: Option<AsyncStrategy>, span: Span) -> Opts {
    Opts {
        export: fallback(o.export, has_flag(flags, FlagOpt::Export), span),
        unimock: fallback(o.unimock, has_flag(flags, FlagOpt::Unimock), span),
        async_strategy: match strategy {
            Some(s) => if o.async_strategy is None { Some(SpanOpt(s, span)) } else { o.async_strategy },
            None => o.async_strategy,
        },
        ..o
    }
}

impl Opts {
    /// The strategy is set to `strategy`, at `span`, unless it was given.
    pub fn set_fallback_async_strategy(&mut self, strategy: AsyncStrategy, span: Span)
        ensures
            *final(self) == (Opts {
                async_strategy: if old(self).async_strategy is None { Some(SpanOpt(strategy, span)) } else { old(self).async_strategy },
                ..*old(self)
            }),
    {
        if self.async_strategy.is_none() {
            self.async_strategy = Some(SpanOpt(strategy, span));
        }
    }

    pub fn default_option<T: Copy>(&self, option: Option<SpanOpt<T>>, default: T) -> (r: SpanOpt<T>)
        ensures
            r == or_default(option, default, self.default_span),
    {
        match option {
            Some(option) => option,
            None => SpanOpt(default, self.default_span),
        }
    }

    pub fn no_deps_value(&self) -> (r: bool)
        ensures
            r == flag(self.no_deps),
    {
        self.default_option(self.no_deps, false).0
    }

    pub fn debug_value(&self) -> (r: bool)
        ensures
            r == flag(self.debug),
    {
        self.default_option(self.debug, false).0
    }

    pub fn async_strategy(&self) -> (r: SpanOpt<AsyncStrategy>)
        ensures
            r == or_default(self.async_strategy, AsyncStrategy::NoHack, self.default_span),
    {
        self.default_option(self.async_strategy, AsyncStrategy::NoHack)
    }

    /// Whether the futures of generated async methods are `Send`: yes unless opted out.
    pub fn future_send(&self) -> (r: SpanOpt<bool>)
        ensures
            r == or_default(self.future_send, true, self.default_span),
    {
        self.default_option(self.future_send, true)
    }

    pub fn export_value(&self) -> (r: bool)
        ensures
            r == flag(self.export),
    {
        self.default_option(self.export, false).0
    }

    /// Mocks are generated with unimock together with a mock API, or with mockall.
    pub fn mockable(&self) -> (r: Mockable)
        ensures
            r == (if (self.unimock is Some && self.mock_api is Some) || self.mockall is Some {
                Mockable::Yes
            } else {
                Mockable::No
            }),
    {
        if (self.unimock.is_some() && self.mock_api.is_some()) || self.mockall.is_some() {
            Mockable::Yes
        } else {
            Mockable::No
        }
    }
}

/// The flag options that a macro variant can switch on by default.
#[derive(Clone, Copy, PartialEq, Eq, Structural, Debug)]
pub enum FlagOpt {
    Export,
    Unimock,
}

/// Each listed flag is switched on, at `span`, unless it was given.
pub fn set_fallbacks(opts: &mut Opts, flags: &Vec<FlagOpt>, span: Span)
    ensures
        *final(opts) == with_variant(*old(opts), flags@, None, span),
{
    let ghost o = *opts;
    let mut i: usize = 0;
    while i < flags.len()
        invariant
            i <= flags@.len(),
            *opts == with_variant(o, flags@.take(i as int), None, span),
        decreases flags@.len() - i,
    {
        let ghost t = flags@.take(i + 1);
        proof {
            assert(t[i as int] == flags@[i as int]);
            assert forall|f: FlagOpt| has_flag(t, f) <==> (has_flag(flags@.take(i as int), f) || flags@[i as int] == f) by {
                if has_flag(t, f) {
                    let j = choose|j: int| 0 <= j < t.len() && t[j] == f;
                    if j < i {
                        assert(flags@.take(i as int)[j] == f);
                    }
                }
                if has_flag(flags@.take(i as int), f) {
                    let j = choose|j: int| 0 <= j < i && flags@.take(i as int)[j] == f;
                    assert(t[j] == f);
                }
            }
        }
        match flags[i] {
            FlagOpt::Export => {
                if opts.export.is_none() {
                    opts.export = Some(SpanOpt(true, span));
                }
            },
            FlagOpt::Unimock => {
                if opts.unimock.is_none() {
                    opts.unimock = Some(SpanOpt(true, span));
                }
            },
        }
        i = i + 1;
    }
    assert(flags@.take(flags@.len() as int) =~= flags@);
}

/// Applies a macro variant: its flags, then its async strategy.
pub fn apply_variant(opts: &mut Opts, flags: &Vec<FlagOpt>, strategy: Option<AsyncStrategy>, span: Span)
    ensures
        *final(opts) == with_variant(*old(opts), flags@, strategy, span),
{
    set_fallbacks(opts, flags, span);
    match strategy {
        Some(s) => opts.set_fallback_async_strategy(s, span),
        None => {},
    }
}

/// "keyword args" to `entrait`.
pub enum EntraitOpt {
    NoDeps(SpanOpt<bool>),
    Debug(SpanOpt<bool>),
    BoxFuture(SpanOpt<bool>),
    AssociatedFuture(SpanOpt<bool>),
    DelegateBy(SpanOpt<Delegate>),
    /// Whether to export mocks
    Export(SpanOpt<bool>),
    /// How to name the mock API
    MockApi(MockApiIdent),
    /// Whether to generate unimock impl
    Unimock(SpanOpt<bool>),
    /// Whether to generate mockall impl
    Mockall(SpanOpt<bool>),
    /// `?Send`: the futures of generated async methods need not be `Send`
    FutureSend(SpanOpt<bool>),
}

impl EntraitOpt {
    pub open spec fn spec_span(&self) -> Span {
        match self {
            EntraitOpt::NoDeps(o) => o.1,
            EntraitOpt::Debug(o) => o.1,
            EntraitOpt::BoxFuture(o) => o.1,
            EntraitOpt::AssociatedFuture(o) => o.1,
            EntraitOpt::DelegateBy(o) => o.1,
            EntraitOpt::Export(o) => o.1,
            EntraitOpt::MockApi(i) => i.0.span,
            EntraitOpt::Unimock(o) => o.1,
            EntraitOpt::Mockall(o) => o.1,
            EntraitOpt::FutureSend(o) => o.1,
        }
    }

    pub fn span(&self) -> (r: Span)
        ensures
            r == self.spec_span(),
    {
        match self {
            EntraitOpt::NoDeps(o) => o.1,
            EntraitOpt::Debug(o) => o.1,
            EntraitOpt::BoxFuture(o) => o.1,
            EntraitOpt::AssociatedFuture(o) => o.1,
            EntraitOpt::DelegateBy(o) => o.1,
            EntraitOpt::Export(o) => o.1,
            EntraitOpt::MockApi(i) => i.0.span,
            EntraitOpt::Unimock(o) => o.1,
            EntraitOpt::Mockall(o) => o.1,
            EntraitOpt::FutureSend(o) => o.1,
        }
    }
}


/// The options with identifiers seen as characters.
pub struct OptsV {
    pub default_span: Span,
    pub no_deps: Option<SpanOpt<bool>>,
    pub debug: Option<SpanOpt<bool>>,
    pub async_strategy: Option<SpanOpt<AsyncStrategy>>,
    pub export: Option<SpanOpt<bool>>,
    pub mock_api: Option<IdentV>,
    pub unimock: Option<SpanOpt<bool>>,
    pub mockall: Option<SpanOpt<bool>>,
    pub future_send: Option<SpanOpt<bool>>,
}

impl View for Opts {
    type V = OptsV;

    open spec fn view(&self) -> OptsV {
        OptsV {
            default_span: self.default_span,
            no_deps: self.no_deps,
            debug: self.debug,
            async_strategy: self.async_strategy,
            export: self.export,
            mock_api: match self.mock_api {
                Some(m) => Some(m.0@),
                None => None,
            },
            unimock: self.unimock,
            mockall: self.mockall,
            future_send: self.future_send,
        }
    }
}

/// No option given.
pub open spec fn no_opts(default_span: Span) -> OptsV {
    OptsV {
        default_span,
        no_deps: None,
        debug: None,
        async_strategy: None,
        export: None,
        mock_api: None,
        unimock: None,
        mockall: None,
        future_send: None,
    }
}

/// An option as the parser produced it, with identifiers seen as characters.
pub enum EntraitOptV {
    NoDeps(SpanOpt<bool>),
    Debug(SpanOpt<bool>),
    BoxFuture(SpanOpt<bool>),
    AssociatedFuture(SpanOpt<bool>),
    DelegateBy(DelegateV, Span),
    Export(SpanOpt<bool>),
    MockApi(IdentV),
    Unimock(SpanOpt<bool>),
    Mockall(SpanOpt<bool>),
    FutureSend(SpanOpt<bool>),
}

impl View for EntraitOpt {
    type V = EntraitOptV;

    open spec fn view(&self) -> EntraitOptV {
        match self {
            EntraitOpt::NoDeps(o) => EntraitOptV::NoDeps(*o),
            EntraitOpt::Debug(o) => EntraitOptV::Debug(*o),
            EntraitOpt::BoxFuture(o) => EntraitOptV::BoxFuture(*o),
            EntraitOpt::AssociatedFuture(o) => EntraitOptV::AssociatedFuture(*o),
            EntraitOpt::DelegateBy(o) => EntraitOptV::DelegateBy(o.0@, o.1),
            EntraitOpt::Export(o) => EntraitOptV::Export(*o),
            EntraitOpt::MockApi(i) => EntraitOptV::MockApi(i.0@),
            EntraitOpt::Unimock(o) => EntraitOptV::Unimock(*o),
            EntraitOpt::Mockall(o) => EntraitOptV::Mockall(*o),
            EntraitOpt::FutureSend(o) => EntraitOptV::FutureSend(*o),
        }
    }
}

impl EntraitOptV {
    pub open spec fn span(self) -> Span {
        match self {
            EntraitOptV::NoDeps(o) => o.1,
            EntraitOptV::Debug(o) => o.1,
            EntraitOptV::BoxFuture(o) => o.1,
            EntraitOptV::AssociatedFuture(o) => o.1,
            EntraitOptV::DelegateBy(_, s) => s,
            EntraitOptV::Export(o) => o.1,
            EntraitOptV::MockApi(i) => i.span,
            EntraitOptV::Unimock(o) => o.1,
            EntraitOptV::Mockall(o) => o.1,
            EntraitOptV::FutureSend(o) => o.1,
        }
    }
}

/// A macro variant never overrides an option the attribute gave; it switches on its flags
/// where they were not given; and applying it a second time changes nothing.
pub proof fn lemma_variant_keeps_given(o: Opts, flags: Seq<FlagOpt>, strategy: Option<AsyncStrategy>, span: Span)
    ensures
        o.export is Some ==> with_variant(o, flags, strategy, span).export == o.export,
        o.unimock is Some ==> with_variant(o, flags, strategy, span).unimock == o.unimock,
        o.async_strategy is Some ==> with_variant(o, flags, strategy, span).async_strategy == o.async_strategy,
        (o.export is None && has_flag(flags, FlagOpt::Export)) ==> flag(with_variant(o, flags, strategy, span).export),
        (o.unimock is None && has_flag(flags, FlagOpt::Unimock)) ==> flag(with_variant(o, flags, strategy, span).unimock),
        with_variant(with_variant(o, flags, strategy, span), flags, strategy, span) == with_variant(o, flags, strategy, span),
{
}

} // verus!
