//! Writes the syntax model back as tokens.

use vstd::prelude::*;
use proc_macro2::Span;
use crate::tokens::{
    Tok, TokV, TokKindV, TokenKind, Delimiter, Spacing, tv, ident_v, punct_v, lifetime_v, open_v, close_v,
    join, punctuated, extend, push_tok, push_ident, push_punct, push_open, push_close, lifetime, ident_of,
    Punctuator, lemma_tv_add,
};
use crate::model::{TypeModel, TypeV, SlotV, LifetimeSlot, PatModel, PatV, FnArg, FnArgV, SigV, args_view, Signature, GenericParam, GenericParamV, WherePredicate, WherePredicateV, params_view, preds_view, slots_view};

verus! {

/// The lifetime in slot `k`, if it has a name.
pub open spec fn slot_toks(k: usize, span: Span, slots: Seq<SlotV>) -> Seq<TokV> {
    if k < slots.len() {
        match slots[k as int].name {
            Some(n) => seq![lifetime_v(n, span)],
            None => Seq::empty(),
        }
    } else {
        Seq::empty()
    }
}

pub open spec fn render_tok(t: TokV, slots: Seq<SlotV>) -> Seq<TokV> {
    match t.kind {
        TokKindV::Slot(k) => slot_toks(k, t.span, slots),
        _ => seq![t],
    }
}

/// Tokens with every slot marker replaced by the lifetime it stands for.
pub open spec fn render_toks(ts: Seq<TokV>, slots: Seq<SlotV>) -> Seq<TokV>
    decreases ts.len(),
{
    if ts.len() == 0 {
        Seq::empty()
    } else {
        render_toks(ts.drop_last(), slots) + render_tok(ts.last(), slots)
    }
}

/// The tokens of a type.
pub open spec fn type_toks(t: TypeV) -> Seq<TokV> {
    render_toks(t.tokens, t.slots)
}

/// Appends the tokens of a type.
pub fn push_type(out: &mut Vec<Tok>, ty: &TypeModel)
    ensures
        tv(final(out)@) == tv(old(out)@) + type_toks(ty@),
{
    let ghost base = tv(out@);
    let ghost ts = tv(ty.tokens@);
    let ghost slots = slots_view(ty.slots@);
    let mut i: usize = 0;
    while i < ty.tokens.len()
        invariant
            i <= ty.tokens@.len(),
            ts == tv(ty.tokens@),
            slots == slots_view(ty.slots@),
            ty@.tokens == ts,
            ty@.slots == slots,
            tv(out@) == base + render_toks(ts.take(i as int), slots),
        decreases ty.tokens@.len() - i,
    {
        let ghost t = ts.take(i + 1);
        assert(t.drop_last() =~= ts.take(i as int));
        assert(t.last() == ty.tokens@[i as int]@);
        let tok = &ty.tokens[i];
        match &tok.kind {
            TokenKind::Slot(k) => {
                let k = *k;
                if k < ty.slots.len() {
                    assert(slots[k as int] == ty.slots@[k as int]@);
                    match &ty.slots[k].name {
                        Some(n) => {
                            push_tok(out, lifetime(n, tok.span));
                            assert(tv(out@) =~= base + render_toks(t, slots));
                        },
                        None => {
                            assert(tv(out@) =~= base + render_toks(t, slots));
                        },
                    }
                } else {
                    assert(tv(out@) =~= base + render_toks(t, slots));
                }
            },
            _ => {
                push_tok(out, tok.duplicate());
                assert(tv(out@) =~= base + render_toks(t, slots));
            },
        }
        i = i + 1;
    }
    assert(ts.take(ty.tokens@.len() as int) =~= ts);
}

/// The tokens of a parameter pattern.
pub open spec fn pat_toks(p: PatV) -> Seq<TokV> {
    match p {
        PatV::Ident { by_ref, mutable, ident, span } =>
            (if by_ref { seq![ident_v("ref"@, span)] } else { Seq::empty() })
            + (if mutable { seq![ident_v("mut"@, span)] } else { Seq::empty() })
            + seq![ident_v(ident, span)],
        PatV::Other { tokens, .. } => tokens,
    }
}

pub fn push_pat(out: &mut Vec<Tok>, p: &PatModel)
    ensures
        tv(final(out)@) == tv(old(out)@) + pat_toks(p@),
{
    let ghost base = tv(out@);
    match p {
        PatModel::Ident { by_ref, mutable, ident, span } => {
            if *by_ref {
                push_ident(out, "ref", *span);
            }
            let ghost a = tv(out@);
            if *mutable {
                push_ident(out, "mut", *span);
            }
            let ghost b = tv(out@);
            push_tok(out, ident_of(ident, *span));
            proof {
                reveal_strlit("ref");
                reveal_strlit("mut");
            }
            assert(tv(out@) =~= base + pat_toks(p@));
        },
        PatModel::Other { tokens, .. } => {
            extend(out, tokens);
        },
    }
}

/// The lifetime of a reference receiver, if it has a name.
pub open spec fn ref_lifetime_toks(r: SlotV, span: Span) -> Seq<TokV> {
    match r.name {
        Some(n) => seq![lifetime_v(n, span)],
        None => Seq::empty(),
    }
}

/// The tokens of a function parameter; `span` locates the tokens that the model does not keep.
pub open spec fn arg_toks(a: FnArgV, span: Span) -> Seq<TokV> {
    match a {
        FnArgV::Receiver { reference, mutable, self_ty, span: self_span } =>
            (match reference {
                Some(r) => seq![punct_v('&', Spacing::Alone, self_span)] + ref_lifetime_toks(r, self_span),
                None => Seq::empty(),
            })
            + (if mutable { seq![ident_v("mut"@, self_span)] } else { Seq::empty() })
            + seq![ident_v("self"@, self_span)]
            + (match self_ty {
                Some(t) => seq![punct_v(':', Spacing::Alone, span)] + type_toks(t),
                None => Seq::empty(),
            }),
        FnArgV::Typed { attrs, pat, ty } =>
            attrs + pat_toks(pat) + seq![punct_v(':', Spacing::Alone, span)] + type_toks(ty),
    }
}

pub fn push_arg(out: &mut Vec<Tok>, a: &FnArg, span: Span)
    ensures
        tv(final(out)@) == tv(old(out)@) + arg_toks(a@, span),
{
    let ghost base = tv(out@);
    proof {
        reveal_strlit("mut");
        reveal_strlit("self");
    }
    match a {
        FnArg::Receiver { reference, mutable, self_ty, span: self_span } => {
            match reference {
                Some(r) => {
                    push_punct(out, '&', *self_span);
                    match &r.name {
                        Some(n) => push_tok(out, lifetime(n, *self_span)),
                        None => {},
                    }
                },
                None => {},
            }
            let ghost a1 = tv(out@);
            if *mutable {
                push_ident(out, "mut", *self_span);
            }
            let ghost a2 = tv(out@);
            push_ident(out, "self", *self_span);
            let ghost a3 = tv(out@);
            match self_ty {
                Some(t) => {
                    push_punct(out, ':', span);
                    push_type(out, t);
                },
                None => {},
            }
            assert(tv(out@) =~= base + arg_toks(a@, span));
        },
        FnArg::Typed { attrs, pat, ty } => {
            extend(out, attrs);
            push_pat(out, pat);
            push_punct(out, ':', span);
            push_type(out, ty);
            assert(tv(out@) =~= base + arg_toks(a@, span));
        },
    }
}

pub open spec fn args_items(args: Seq<FnArgV>, span: Span) -> Seq<Seq<TokV>> {
    args.map_values(|a: FnArgV| arg_toks(a, span))
}

pub open spec fn comma(span: Span) -> Seq<TokV> {
    seq![punct_v(',', Spacing::Alone, span)]
}

/// Parameters separated by commas.
pub open spec fn args_toks(args: Seq<FnArgV>, span: Span) -> Seq<TokV> {
    join(args_items(args, span), comma(span))
}

/// Writes a comma separated list into a fresh stream: the result holds the items' tokens
/// joined by commas.
pub fn push_args(out: &mut Vec<Tok>, args: &Vec<FnArg>, span: Span)
    ensures
        tv(final(out)@) == tv(old(out)@) + args_toks(args_view(args@), span),
{
    let mut stream: Vec<Tok> = Vec::new();
    std::mem::swap(&mut stream, out);
    let ghost base = tv(stream@);
    let mut sep: Vec<Tok> = Vec::new();
    push_punct(&mut sep, ',', span);
    let mut p = Punctuator::new(stream, Vec::new(), sep, Vec::new());
    assert(args_items(args_view(args@), span).take(0) =~= Seq::<Seq<TokV>>::empty());
    let mut i: usize = 0;
    while i < args.len()
        invariant
            i <= args@.len(),
            p.wf(),
            p.position == i,
            p.base@ == base,
            tv(p.start@) == Seq::<TokV>::empty(),
            tv(p.punct@) == comma(span),
            tv(p.end@) == Seq::<TokV>::empty(),
            p.items@ == args_items(args_view(args@), span).take(i as int),
        decreases args@.len() - i,
    {
        let mut item: Vec<Tok> = Vec::new();
        push_arg(&mut item, &args[i], span);
        assert(tv(item@) =~= arg_toks(args@[i as int]@, span));
        p.push(&item);
        assert(args_items(args_view(args@), span).take(i + 1) =~= args_items(args_view(args@), span).take(i as int).push(arg_toks(args@[i as int]@, span)));
        i = i + 1;
    }
    assert(args_items(args_view(args@), span).take(args@.len() as int) =~= args_items(args_view(args@), span));
    let ghost items = p.items@;
    let ghost st = tv(p.start@);
    let ghost en = tv(p.end@);
    let stream = p.finish();
    proof {
        if items.len() == 0 {
            assert(join(items, comma(span)) =~= Seq::<TokV>::empty());
        }
        assert(st =~= Seq::<TokV>::empty());
        assert(en =~= Seq::<TokV>::empty());
    }
    assert(tv(stream@) =~= base + args_toks(args_view(args@), span));
    *out = stream;
}

pub open spec fn param_items(ps: Seq<GenericParamV>) -> Seq<Seq<TokV>> {
    ps.map_values(|p: GenericParamV| p.tokens)
}

/// `<A, B>`, or nothing without parameters.
pub open spec fn params_toks(ps: Seq<GenericParamV>, span: Span) -> Seq<TokV> {
    punctuated(seq![punct_v('<', Spacing::Alone, span)], param_items(ps), comma(span), seq![punct_v('>', Spacing::Alone, span)])
}

/// Generic parameters are written with angle brackets exactly when there is at least one:
/// no parameter writes nothing, and otherwise the list starts with `<` and ends with `>`.
pub proof fn lemma_params_brackets(ps: Seq<GenericParamV>, span: Span)
    ensures
        (params_toks(ps, span).len() == 0) <==> (ps.len() == 0),
        ps.len() > 0 ==> params_toks(ps, span)[0] == punct_v('<', Spacing::Alone, span),
        ps.len() > 0 ==> params_toks(ps, span).last() == punct_v('>', Spacing::Alone, span),
{
    if ps.len() > 0 {
        let j = join(param_items(ps), comma(span));
        let r = seq![punct_v('<', Spacing::Alone, span)] + j + seq![punct_v('>', Spacing::Alone, span)];
        assert(params_toks(ps, span) == r);
        assert(r[0] == punct_v('<', Spacing::Alone, span));
        assert(r.last() == punct_v('>', Spacing::Alone, span));
    }
}

pub fn push_params(out: &mut Vec<Tok>, ps: &Vec<GenericParam>, span: Span)
    ensures
        tv(final(out)@) == tv(old(out)@) + params_toks(params_view(ps@), span),
{
    let mut stream: Vec<Tok> = Vec::new();
    std::mem::swap(&mut stream, out);
    let ghost base = tv(stream@);
    let mut start: Vec<Tok> = Vec::new();
    push_punct(&mut start, '<', span);
    let mut sep: Vec<Tok> = Vec::new();
    push_punct(&mut sep, ',', span);
    let mut end: Vec<Tok> = Vec::new();
    push_punct(&mut end, '>', span);
    let ghost items_all = param_items(params_view(ps@));
    let mut p = Punctuator::new(stream, start, sep, end);
    assert(items_all.take(0) =~= Seq::<Seq<TokV>>::empty());
    let mut i: usize = 0;
    while i < ps.len()
        invariant
            i <= ps@.len(),
            p.wf(),
            p.position == i,
            p.base@ == base,
            tv(p.start@) == seq![punct_v('<', Spacing::Alone, span)],
            tv(p.punct@) == comma(span),
            tv(p.end@) == seq![punct_v('>', Spacing::Alone, span)],
            items_all == param_items(params_view(ps@)),
            p.items@ == items_all.take(i as int),
        decreases ps@.len() - i,
    {
        p.push(&ps[i].tokens);
        assert(items_all.take(i + 1) =~= items_all.take(i as int).push(tv(ps@[i as int].tokens@)));
        i = i + 1;
    }
    assert(items_all.take(ps@.len() as int) =~= items_all);
    let stream = p.finish();
    *out = stream;
}

pub open spec fn pred_items(ps: Seq<WherePredicateV>) -> Seq<Seq<TokV>> {
    ps.map_values(|p: WherePredicateV| p.tokens)
}

/// `where A, B`: the keyword and the predicates, whatever their number.
pub open spec fn where_toks(ps: Seq<WherePredicateV>, span: Span) -> Seq<TokV> {
    seq![ident_v("where"@, span)] + join(pred_items(ps), comma(span))
}

pub open spec fn opt_where_toks(w: Option<Seq<WherePredicateV>>, span: Span) -> Seq<TokV> {
    match w {
        Some(ps) => where_toks(ps, span),
        None => Seq::empty(),
    }
}

pub open spec fn where_view(w: Option<Vec<WherePredicate>>) -> Option<Seq<WherePredicateV>> {
    match w {
        Some(ps) => Some(preds_view(ps@)),
        None => None,
    }
}

/// Appends the items' tokens joined by `sep`.
pub fn push_joined_preds(out: &mut Vec<Tok>, ps: &Vec<WherePredicate>, span: Span)
    ensures
        tv(final(out)@) == tv(old(out)@) + join(pred_items(preds_view(ps@)), comma(span)),
{
    let mut stream: Vec<Tok> = Vec::new();
    std::mem::swap(&mut stream, out);
    let ghost base = tv(stream@);
    let mut sep: Vec<Tok> = Vec::new();
    push_punct(&mut sep, ',', span);
    let ghost items_all = pred_items(preds_view(ps@));
    let mut p = Punctuator::new(stream, Vec::new(), sep, Vec::new());
    assert(items_all.take(0) =~= Seq::<Seq<TokV>>::empty());
    let mut i: usize = 0;
    while i < ps.len()
        invariant
            i <= ps@.len(),
            p.wf(),
            p.position == i,
            p.base@ == base,
            tv(p.start@) == Seq::<TokV>::empty(),
            tv(p.punct@) == comma(span),
            tv(p.end@) == Seq::<TokV>::empty(),
            items_all == pred_items(preds_view(ps@)),
            p.items@ == items_all.take(i as int),
        decreases ps@.len() - i,
    {
        p.push(&ps[i].tokens);
        assert(items_all.take(i + 1) =~= items_all.take(i as int).push(tv(ps@[i as int].tokens@)));
        i = i + 1;
    }
    assert(items_all.take(ps@.len() as int) =~= items_all);
    let ghost items = p.items@;
    let stream = p.finish();
    proof {
        if items.len() == 0 {
            assert(join(items, comma(span)) =~= Seq::<TokV>::empty());
        }
    }
    assert(tv(stream@) =~= base + join(items_all, comma(span)));
    *out = stream;
}

pub fn push_opt_where(out: &mut Vec<Tok>, w: &Option<Vec<WherePredicate>>, span: Span)
    ensures
        tv(final(out)@) == tv(old(out)@) + opt_where_toks(where_view(*w), span),
{
    let ghost base = tv(out@);
    proof { reveal_strlit("where"); }
    match w {
        Some(ps) => {
            push_ident(out, "where", span);
            push_joined_preds(out, ps, span);
            assert(tv(out@) =~= base + opt_where_toks(where_view(*w), span));
        },
        None => {
            assert(tv(out@) =~= base + opt_where_toks(where_view(*w), span));
        },
    }
}

pub open spec fn opt_type_view(t: Option<TypeModel>) -> Option<TypeV> {
    match t {
        Some(x) => Some(x@),
        None => None,
    }
}

/// `-> T`, or nothing.
pub open spec fn output_toks(output: Option<TypeV>, span: Span) -> Seq<TokV> {
    match output {
        Some(t) => seq![punct_v('-', Spacing::Joint, span), punct_v('>', Spacing::Alone, span)] + type_toks(t),
        None => Seq::empty(),
    }
}

pub fn push_output(out: &mut Vec<Tok>, output: &Option<TypeModel>, span: Span)
    ensures
        tv(final(out)@) == tv(old(out)@) + output_toks(opt_type_view(*output), span),
{
    let ghost base = tv(out@);
    match output {
        Some(t) => {
            push_tok(out, crate::tokens::punct('-', Spacing::Joint, span));
            push_punct(out, '>', span);
            push_type(out, t);
            assert(tv(out@) =~= base + output_toks(opt_type_view(*output), span));
        },
        None => {
            assert(tv(out@) =~= base + output_toks(opt_type_view(*output), span));
        },
    }
}

/// The tokens of a function signature, up to its body.
#[verifier::opaque]
pub open spec fn sig_toks(s: SigV) -> Seq<TokV> {
    (if s.asyncness { seq![ident_v("async"@, s.span)] } else { Seq::empty() })
    + s.prefix
    + seq![ident_v("fn"@, s.span), ident_v(s.ident, s.span)]
    + params_toks(s.params, s.span)
    + seq![open_v(Delimiter::Parenthesis, s.span)]
    + args_toks(s.inputs, s.span)
    + seq![close_v(Delimiter::Parenthesis, s.span)]
    + output_toks(s.output, s.span)
    + opt_where_toks(s.where_clause, s.span)
}

pub fn push_sig(out: &mut Vec<Tok>, s: &Signature)
    ensures
        tv(final(out)@) == tv(old(out)@) + sig_toks(s@),
{
    let ghost base = tv(out@);
    proof {
        reveal_strlit("async");
        reveal_strlit("fn");
        reveal(sig_toks);
    }
    if s.asyncness {
        push_ident(out, "async", s.span);
    }
    let ghost a0 = tv(out@);
    extend(out, &s.prefix);
    let ghost a1 = tv(out@);
    push_ident(out, "fn", s.span);
    push_tok(out, ident_of(&s.ident, s.span));
    let ghost a2 = tv(out@);
    push_params(out, &s.generics.params, s.span);
    let ghost a3 = tv(out@);
    push_open(out, Delimiter::Parenthesis, s.span);
    push_args(out, &s.inputs, s.span);
    push_close(out, Delimiter::Parenthesis, s.span);
    let ghost a4 = tv(out@);
    push_output(out, &s.output, s.span);
    push_opt_where(out, &s.generics.where_clause, s.span);
    assert(tv(out@) =~= base + sig_toks(s@));
}

} // verus!
