//! Parsers for the arguments of the `entrait` attribute, on tokens.

use vstd::prelude::*;
use proc_macro2::Span;
use crate::tokens::{Tok, TokV, tv};
use crate::error::{ErrV, MacroError};
use crate::model::{Ident, IdentV};
use crate::opt::{AsyncStrategy, Delegate, DelegateV, EntraitOpt, EntraitOptV, MockApiIdent, RefDelegate, SpanOpt};
use crate::parse_util::{ident_at, is_ident_at, is_punct_at, punct_at, span_at, span_of, word, word_at};
use crate::text::owned;

verus! {

pub open spec fn err_at(span: Span, message: Seq<char>) -> ErrV {
    ErrV { span, message }
}

/// `= true`, `= false`, or nothing, which means `default`.
pub open spec fn spec_parse_eq_bool(t: Seq<TokV>, i: int, default: bool, span: Span, end: Span) -> Result<(SpanOpt<bool>, nat), ErrV> {
    if !punct_at(t, i, '=') {
        Ok((SpanOpt(default, span), i as nat))
    } else if ident_at(t, i + 1) == Some("true"@) {
        Ok((SpanOpt(true, span), (i + 2) as nat))
    } else if ident_at(t, i + 1) == Some("false"@) {
        Ok((SpanOpt(false, span), (i + 2) as nat))
    } else {
        Err(err_at(span_at(t, i + 1, end), "expected boolean literal"@))
    }
}

/// `= ref`, `= Self`, `= Borrow`, `= SomeTrait`, or nothing, which means delegating to `Self`.
pub open spec fn spec_parse_eq_delegate_by(t: Seq<TokV>, i: int, span: Span, end: Span) -> Result<(DelegateV, nat), ErrV> {
    if !punct_at(t, i, '=') {
        Ok((DelegateV::BySelf, i as nat))
    } else if ident_at(t, i + 1) == Some("ref"@) {
        Ok((DelegateV::ByRef(RefDelegate::AsRef), (i + 2) as nat))
    } else if ident_at(t, i + 1) == Some("Self"@) {
        Ok((DelegateV::BySelf, (i + 2) as nat))
    } else {
        match word_at(t, i + 1) {
            None => Err(err_at(span_at(t, i + 1, end), "expected identifier"@)),
            Some(name) => if name == "Borrow"@ {
                Ok((DelegateV::ByRef(RefDelegate::Borrow), (i + 2) as nat))
            } else {
                Ok((DelegateV::ByTrait(IdentV { name, span: t[i + 1].span }), (i + 2) as nat))
            },
        }
    }
}

pub open spec fn map_bool(r: Result<(SpanOpt<bool>, nat), ErrV>, f: spec_fn(SpanOpt<bool>) -> EntraitOptV) -> Result<(EntraitOptV, nat), ErrV> {
    match r {
        Ok((o, j)) => Ok((f(o), j)),
        Err(e) => Err(e),
    }
}

pub open spec fn unknown_option_message(name: Seq<char>) -> Seq<char> {
    "Unkonwn entrait option \""@ + name + "\""@
}

/// One option: `?Send`, or a keyword optionally followed by `=` and a value.
pub open spec fn spec_parse_entrait_opt(t: Seq<TokV>, i: int, end: Span) -> Result<(EntraitOptV, nat), ErrV> {
    if punct_at(t, i, '?') && ident_at(t, i + 1) == Some("Send"@) {
        Ok((EntraitOptV::FutureSend(SpanOpt(false, t[i].span)), (i + 2) as nat))
    } else {
    match word_at(t, i) {
        None => Err(err_at(span_at(t, i, end), "expected identifier"@)),
        Some(name) => {
            let span = t[i].span;
            let j = i + 1;
            if name == "no_deps"@ {
                map_bool(spec_parse_eq_bool(t, j, true, span, end), |o: SpanOpt<bool>| EntraitOptV::NoDeps(o))
            } else if name == "debug"@ {
                map_bool(spec_parse_eq_bool(t, j, true, span, end), |o: SpanOpt<bool>| EntraitOptV::Debug(o))
            } else if name == "box_future"@ || name == "async_trait"@ {
                map_bool(spec_parse_eq_bool(t, j, true, span, end), |o: SpanOpt<bool>| EntraitOptV::BoxFuture(o))
            } else if name == "associated_future"@ {
                map_bool(spec_parse_eq_bool(t, j, true, span, end), |o: SpanOpt<bool>| EntraitOptV::AssociatedFuture(o))
            } else if name == "delegate_by"@ {
                match spec_parse_eq_delegate_by(t, j, span, end) {
                    Ok((d, k)) => Ok((EntraitOptV::DelegateBy(d, span), k)),
                    Err(e) => Err(e),
                }
            } else if name == "export"@ {
                map_bool(spec_parse_eq_bool(t, j, true, span, end), |o: SpanOpt<bool>| EntraitOptV::Export(o))
            } else if name == "mock_api"@ {
                if !punct_at(t, j, '=') {
                    Err(err_at(span_at(t, j, end), "expected `=`"@))
                } else {
                    match word_at(t, j + 1) {
                        None => Err(err_at(span_at(t, j + 1, end), "expected identifier"@)),
                        Some(m) => Ok((EntraitOptV::MockApi(IdentV { name: m, span: t[j + 1].span }), (j + 2) as nat)),
                    }
                }
            } else if name == "unimock"@ {
                map_bool(spec_parse_eq_bool(t, j, true, span, end), |o: SpanOpt<bool>| EntraitOptV::Unimock(o))
            } else if name == "mockall"@ {
                map_bool(spec_parse_eq_bool(t, j, true, span, end), |o: SpanOpt<bool>| EntraitOptV::Mockall(o))
            } else {
                Err(err_at(span, unknown_option_message(name)))
            }
        },
    }
    }
}

pub open spec fn opt_result(r: Result<(EntraitOpt, usize), MacroError>) -> Result<(EntraitOptV, nat), ErrV> {
    match r {
        Ok((o, j)) => Ok((o@, j as nat)),
        Err(e) => Err(e@),
    }
}

fn parse_eq_bool(toks: &Vec<Tok>, i: usize, default: bool, span: Span, end: Span) -> (r: Result<(SpanOpt<bool>, usize), MacroError>)
    requires
        i <= toks@.len(),
    ensures
        match r {
            Ok((o, j)) => spec_parse_eq_bool(tv(toks@), i as int, default, span, end) == Ok::<(SpanOpt<bool>, nat), ErrV>((o, j as nat)) && j <= toks@.len(),
            Err(e) => spec_parse_eq_bool(tv(toks@), i as int, default, span, end) == Err::<(SpanOpt<bool>, nat), ErrV>(e@),
        },
{
    let n = toks.len();
    if !is_punct_at(toks, i, '=') {
        Ok((SpanOpt(default, span), i))
    } else if is_ident_at(toks, i + 1, "true") {
        Ok((SpanOpt(true, span), i + 2))
    } else if is_ident_at(toks, i + 1, "false") {
        Ok((SpanOpt(false, span), i + 2))
    } else {
        Err(MacroError::new(span_of(toks, i + 1, end), "expected boolean literal"))
    }
}

fn parse_eq_delegate_by(toks: &Vec<Tok>, i: usize, span: Span, end: Span) -> (r: Result<(Delegate, usize), MacroError>)
    requires
        i <= toks@.len(),
    ensures
        match r {
            Ok((d, j)) => spec_parse_eq_delegate_by(tv(toks@), i as int, span, end) == Ok::<(DelegateV, nat), ErrV>((d@, j as nat)) && j <= toks@.len(),
            Err(e) => spec_parse_eq_delegate_by(tv(toks@), i as int, span, end) == Err::<(DelegateV, nat), ErrV>(e@),
        },
{
    let n = toks.len();
    if !is_punct_at(toks, i, '=') {
        return Ok((Delegate::BySelf, i));
    }
    if is_ident_at(toks, i + 1, "ref") {
        return Ok((Delegate::ByRef(RefDelegate::AsRef), i + 2));
    }
    if is_ident_at(toks, i + 1, "Self") {
        return Ok((Delegate::BySelf, i + 2));
    }
    match word(toks, i + 1) {
        None => Err(MacroError::new(span_of(toks, i + 1, end), "expected identifier")),
        Some(ident) => {
            if crate::text::str_eq(ident.name.as_str(), "Borrow") {
                Ok((Delegate::ByRef(RefDelegate::Borrow), i + 2))
            } else {
                Ok((Delegate::ByTrait(ident), i + 2))
            }
        },
    }
}

fn unknown_option(name: &String, span: Span) -> (e: MacroError)
    ensures
        e@ == err_at(span, unknown_option_message(name@)),
{
    let mut message = owned("Unkonwn entrait option \"");
    message.append(name.as_str());
    message.append("\"");
    MacroError { span, message }
}

/// Parses one option at position `i`.
pub fn parse_entrait_opt(toks: &Vec<Tok>, i: usize, end: Span) -> (r: Result<(EntraitOpt, usize), MacroError>)
    requires
        i <= toks@.len(),
    ensures
        opt_result(r) == spec_parse_entrait_opt(tv(toks@), i as int, end),
        r matches Ok((_, j)) ==> i < j <= toks@.len(),
{
    let n = toks.len();
    if is_punct_at(toks, i, '?') && is_ident_at(toks, i + 1, "Send") {
        return Ok((EntraitOpt::FutureSend(SpanOpt(false, toks[i].span)), i + 2));
    }
    let ident = match word(toks, i) {
        None => return Err(MacroError::new(span_of(toks, i, end), "expected identifier")),
        Some(ident) => ident,
    };
    let span = ident.span;
    let j = i + 1;
    let name = ident.name.as_str();
    if crate::text::str_eq(name, "no_deps") {
        match parse_eq_bool(toks, j, true, span, end) {
            Ok((o, k)) => Ok((EntraitOpt::NoDeps(o), k)),
            Err(e) => Err(e),
        }
    } else if crate::text::str_eq(name, "debug") {
        match parse_eq_bool(toks, j, true, span, end) {
            Ok((o, k)) => Ok((EntraitOpt::Debug(o), k)),
            Err(e) => Err(e),
        }
    } else if crate::text::str_eq(name, "box_future") || crate::text::str_eq(name, "async_trait") {
        match parse_eq_bool(toks, j, true, span, end) {
            Ok((o, k)) => Ok((EntraitOpt::BoxFuture(o), k)),
            Err(e) => Err(e),
        }
    } else if crate::text::str_eq(name, "associated_future") {
        match parse_eq_bool(toks, j, true, span, end) {
            Ok((o, k)) => Ok((EntraitOpt::AssociatedFuture(o), k)),
            Err(e) => Err(e),
        }
    } else if crate::text::str_eq(name, "delegate_by") {
        match parse_eq_delegate_by(toks, j, span, end) {
            Ok((d, k)) => Ok((EntraitOpt::DelegateBy(SpanOpt(d, span)), k)),
            Err(e) => Err(e),
        }
    } else if crate::text::str_eq(name, "export") {
        match parse_eq_bool(toks, j, true, span, end) {
            Ok((o, k)) => Ok((EntraitOpt::Export(o), k)),
            Err(e) => Err(e),
        }
    } else if crate::text::str_eq(name, "mock_api") {
        if !is_punct_at(toks, j, '=') {
            Err(MacroError::new(span_of(toks, j, end), "expected `=`"))
        } else {
            match word(toks, j + 1) {
                None => Err(MacroError::new(span_of(toks, j + 1, end), "expected identifier")),
                Some(m) => Ok((EntraitOpt::MockApi(MockApiIdent(m)), j + 2)),
            }
        }
    } else if crate::text::str_eq(name, "unimock") {
        match parse_eq_bool(toks, j, true, span, end) {
            Ok((o, k)) => Ok((EntraitOpt::Unimock(o), k)),
            Err(e) => Err(e),
        }
    } else if crate::text::str_eq(name, "mockall") {
        match parse_eq_bool(toks, j, true, span, end) {
            Ok((o, k)) => Ok((EntraitOpt::Mockall(o), k)),
            Err(e) => Err(e),
        }
    } else {
        Err(unknown_option(&ident.name, span))
    }
}

} // verus!

verus! {

pub proof fn lemma_opt_advances(t: Seq<TokV>, i: int, end: Span)
    requires
        0 <= i,
    ensures
        spec_parse_entrait_opt(t, i, end) matches Ok((_, j)) ==> i < j <= t.len(),
{
}

} // verus!
