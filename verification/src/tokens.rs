//! A flat model of a token stream: groups are written as matching open and close tokens.

use vstd::prelude::*;
use proc_macro2::Span;
use crate::text::{owned, str_eq};

verus! {

#[derive(Clone, Copy, PartialEq, Eq, Structural, Debug)]
pub enum Delimiter {
    Parenthesis,
    Bracket,
    Brace,
    Invisible,
}

#[derive(Clone, Copy, PartialEq, Eq, Structural, Debug)]
pub enum Spacing {
    Alone,
    Joint,
}

/// One token. `Slot` stands for the lifetime at a given position of a type's lifetime slots.
pub enum TokenKind {
    Ident(String),
    Punct(char, Spacing),
    Lifetime(String),
    Literal(String),
    Open(Delimiter),
    Close(Delimiter),
    Slot(usize),
}

pub struct Tok {
    pub kind: TokenKind,
    pub span: Span,
}

/// What a token is, with text as characters.
pub enum TokKindV {
    Ident(Seq<char>),
    Punct(char, Spacing),
    Lifetime(Seq<char>),
    Literal(Seq<char>),
    Open(Delimiter),
    Close(Delimiter),
    Slot(usize),
}

pub struct TokV {
    pub kind: TokKindV,
    pub span: Span,
}

impl View for Tok {
    type V = TokV;

    open spec fn view(&self) -> TokV {
        TokV {
            kind: match self.kind {
                TokenKind::Ident(s) => TokKindV::Ident(s@),
                TokenKind::Punct(c, sp) => TokKindV::Punct(c, sp),
                TokenKind::Lifetime(s) => TokKindV::Lifetime(s@),
                TokenKind::Literal(s) => TokKindV::Literal(s@),
                TokenKind::Open(d) => TokKindV::Open(d),
                TokenKind::Close(d) => TokKindV::Close(d),
                TokenKind::Slot(k) => TokKindV::Slot(k),
            },
            span: self.span,
        }
    }
}

/// The view of a token sequence.
pub open spec fn tv(s: Seq<Tok>) -> Seq<TokV> {
    s.map_values(|t: Tok| t@)
}

pub proof fn lemma_tv_add(a: Seq<Tok>, b: Seq<Tok>)
    ensures
        tv(a + b) == tv(a) + tv(b),
{
    assert(tv(a + b) =~= tv(a) + tv(b));
}

pub proof fn lemma_tv_push(a: Seq<Tok>, t: Tok)
    ensures
        tv(a.push(t)) == tv(a).push(t@),
{
    assert(tv(a.push(t)) =~= tv(a).push(t@));
}

pub open spec fn ident_v(s: Seq<char>, span: Span) -> TokV {
    TokV { kind: TokKindV::Ident(s), span }
}

pub open spec fn punct_v(c: char, sp: Spacing, span: Span) -> TokV {
    TokV { kind: TokKindV::Punct(c, sp), span }
}

pub open spec fn lifetime_v(s: Seq<char>, span: Span) -> TokV {
    TokV { kind: TokKindV::Lifetime(s), span }
}

pub open spec fn open_v(d: Delimiter, span: Span) -> TokV {
    TokV { kind: TokKindV::Open(d), span }
}

pub open spec fn close_v(d: Delimiter, span: Span) -> TokV {
    TokV { kind: TokKindV::Close(d), span }
}

/// `::`
pub open spec fn path_sep_v(span: Span) -> Seq<TokV> {
    seq![punct_v(':', Spacing::Joint, span), punct_v(':', Spacing::Alone, span)]
}

impl TokenKind {
    pub fn duplicate(&self) -> (r: TokenKind)
        ensures
            r == *self,
    {
        match self {
            TokenKind::Ident(s) => TokenKind::Ident(s.clone()),
            TokenKind::Punct(c, sp) => TokenKind::Punct(*c, *sp),
            TokenKind::Lifetime(s) => TokenKind::Lifetime(s.clone()),
            TokenKind::Literal(s) => TokenKind::Literal(s.clone()),
            TokenKind::Open(d) => TokenKind::Open(*d),
            TokenKind::Close(d) => TokenKind::Close(*d),
            TokenKind::Slot(k) => TokenKind::Slot(*k),
        }
    }
}

impl Tok {
    pub fn duplicate(&self) -> (r: Tok)
        ensures
            r == *self,
    {
        Tok { kind: self.kind.duplicate(), span: self.span }
    }

    pub open spec fn is_punct(&self, c: char) -> bool {
        self.kind matches TokenKind::Punct(pc, _) && pc == c
    }

    pub fn check_punct(&self, c: char) -> (r: bool)
        ensures
            r == self.is_punct(c),
    {
        match &self.kind {
            TokenKind::Punct(pc, _) => *pc == c,
            _ => false,
        }
    }

    pub open spec fn is_ident(&self, s: Seq<char>) -> bool {
        self.kind matches TokenKind::Ident(i) && i@ == s
    }

    pub fn check_ident(&self, s: &str) -> (r: bool)
        ensures
            r == self.is_ident(s@),
    {
        match &self.kind {
            TokenKind::Ident(i) => str_eq(i.as_str(), s),
            _ => false,
        }
    }

    pub open spec fn is_open(&self, d: Delimiter) -> bool {
        self.kind matches TokenKind::Open(od) && od == d
    }

    pub fn check_open(&self, d: Delimiter) -> (r: bool)
        ensures
            r == self.is_open(d),
    {
        match &self.kind {
            TokenKind::Open(od) => *od == d,
            _ => false,
        }
    }

    pub open spec fn is_close(&self, d: Delimiter) -> bool {
        self.kind matches TokenKind::Close(od) && od == d
    }

    pub fn check_close(&self, d: Delimiter) -> (r: bool)
        ensures
            r == self.is_close(d),
    {
        match &self.kind {
            TokenKind::Close(od) => *od == d,
            _ => false,
        }
    }
}

/// An identifier token from a string slice.
pub fn ident(s: &str, span: Span) -> (t: Tok)
    ensures
        t@ == ident_v(s@, span),
{
    Tok { kind: TokenKind::Ident(owned(s)), span }
}

/// An identifier token from a `String`.
pub fn ident_of(s: &String, span: Span) -> (t: Tok)
    ensures
        t@ == ident_v(s@, span),
{
    Tok { kind: TokenKind::Ident(s.clone()), span }
}

pub fn lifetime(s: &String, span: Span) -> (t: Tok)
    ensures
        t@ == lifetime_v(s@, span),
{
    Tok { kind: TokenKind::Lifetime(s.clone()), span }
}

pub fn punct(c: char, sp: Spacing, span: Span) -> (t: Tok)
    ensures
        t@ == punct_v(c, sp, span),
{
    Tok { kind: TokenKind::Punct(c, sp), span }
}

/// Appends a copy of `src` to `out`.
pub fn extend(out: &mut Vec<Tok>, src: &Vec<Tok>)
    ensures
        final(out)@ == old(out)@ + src@,
        tv(final(out)@) == tv(old(out)@) + tv(src@),
{
    let ghost start = out@;
    let mut i: usize = 0;
    while i < src.len()
        invariant
            i <= src@.len(),
            out@ == start + src@.take(i as int),
        decreases src@.len() - i,
    {
        out.push(src[i].duplicate());
        assert(src@.take(i + 1) =~= src@.take(i as int).push(src@[i as int]));
        i = i + 1;
    }
    assert(src@.take(src@.len() as int) =~= src@);
    proof { lemma_tv_add(start, src@); }
}

/// Appends one token.
pub fn push_tok(out: &mut Vec<Tok>, t: Tok)
    ensures
        final(out)@ == old(out)@.push(t),
        tv(final(out)@) == tv(old(out)@).push(t@),
{
    proof { lemma_tv_push(out@, t); }
    out.push(t);
}

/// Appends `::`.
pub fn push_path_sep(out: &mut Vec<Tok>, span: Span)
    ensures
        tv(final(out)@) == tv(old(out)@) + path_sep_v(span),
{
    let ghost o = tv(out@);
    push_tok(out, punct(':', Spacing::Joint, span));
    push_tok(out, punct(':', Spacing::Alone, span));
    assert(tv(out@) =~= o + path_sep_v(span));
}

/// Appends an identifier.
pub fn push_ident(out: &mut Vec<Tok>, s: &str, span: Span)
    ensures
        tv(final(out)@) == tv(old(out)@).push(ident_v(s@, span)),
{
    push_tok(out, ident(s, span));
}

/// Appends a punctuation character that stands alone.
pub fn push_punct(out: &mut Vec<Tok>, c: char, span: Span)
    ensures
        tv(final(out)@) == tv(old(out)@).push(punct_v(c, Spacing::Alone, span)),
{
    push_tok(out, punct(c, Spacing::Alone, span));
}

/// Appends the opening token of a group.
pub fn push_open(out: &mut Vec<Tok>, d: Delimiter, span: Span)
    ensures
        tv(final(out)@) == tv(old(out)@).push(open_v(d, span)),
{
    push_tok(out, Tok { kind: TokenKind::Open(d), span });
}

/// Appends the closing token of a group.
pub fn push_close(out: &mut Vec<Tok>, d: Delimiter, span: Span)
    ensures
        tv(final(out)@) == tv(old(out)@).push(close_v(d, span)),
{
    push_tok(out, Tok { kind: TokenKind::Close(d), span });
}

/// A pair of token producers written one after the other.
pub struct TokenPair<T, U>(pub T, pub U);

/// A producer of no tokens.
pub struct EmptyToken;

/// Writes items separated by `punct`; `start` comes before the first item and `end` after the
/// last, but only when at least one item was written.
pub struct Punctuator {
    pub stream: Vec<Tok>,
    pub position: usize,
    pub start: Vec<Tok>,
    pub punct: Vec<Tok>,
    pub end: Vec<Tok>,
    pub items: Ghost<Seq<Seq<TokV>>>,
    pub base: Ghost<Seq<TokV>>,
}

/// Items joined by a separator.
pub open spec fn join(items: Seq<Seq<TokV>>, sep: Seq<TokV>) -> Seq<TokV>
    decreases items.len(),
{
    if items.len() == 0 {
        Seq::empty()
    } else if items.len() == 1 {
        items[0]
    } else {
        join(items.drop_last(), sep) + sep + items.last()
    }
}

/// What a punctuated list writes: nothing when there are no items.
pub open spec fn punctuated(start: Seq<TokV>, items: Seq<Seq<TokV>>, sep: Seq<TokV>, end: Seq<TokV>) -> Seq<TokV> {
    if items.len() == 0 {
        Seq::empty()
    } else {
        start + join(items, sep) + end
    }
}

/// Each item after the first, with the separator before it.
pub open spec fn separated_rest(items: Seq<Seq<TokV>>, sep: Seq<TokV>) -> Seq<TokV>
    decreases items.len(),
{
    if items.len() <= 1 {
        Seq::empty()
    } else {
        separated_rest(items.drop_last(), sep) + sep + items.last()
    }
}

proof fn lemma_join_first(items: Seq<Seq<TokV>>, sep: Seq<TokV>)
    requires
        items.len() > 0,
    ensures
        join(items, sep) == items[0] + separated_rest(items, sep),
    decreases items.len(),
{
    if items.len() == 1 {
        assert(items[0] + Seq::<TokV>::empty() =~= items[0]);
    } else {
        lemma_join_first(items.drop_last(), sep);
        assert(items.drop_last()[0] == items[0]);
        assert(join(items, sep) =~= items[0] + separated_rest(items, sep));
    }
}

/// What a punctuated list writes: nothing at all without items; otherwise the start, the
/// first item, each further item with a separator before it, and the end. So the start comes
/// once before the first item, separators stand only between items, and the end comes once,
/// only when some item was written.
pub proof fn lemma_punctuated_shape(start: Seq<TokV>, items: Seq<Seq<TokV>>, sep: Seq<TokV>, end: Seq<TokV>)
    ensures
        items.len() == 0 ==> punctuated(start, items, sep, end) == Seq::<TokV>::empty(),
        items.len() > 0 ==> punctuated(start, items, sep, end) == start + items[0] + separated_rest(items, sep) + end,
{
    if items.len() > 0 {
        lemma_join_first(items, sep);
        assert(start + join(items, sep) + end =~= start + items[0] + separated_rest(items, sep) + end);
    }
}

impl Punctuator {
    pub open spec fn wf(&self) -> bool {
        &&& self.position as nat == self.items@.len()
        &&& self.position == 0 ==> tv(self.stream@) == self.base@
        &&& self.position > 0 ==> tv(self.stream@) == self.base@ + tv(self.start@) + join(self.items@, tv(self.punct@))
    }

    pub fn new(stream: Vec<Tok>, start: Vec<Tok>, punct: Vec<Tok>, end: Vec<Tok>) -> (p: Punctuator)
        ensures
            p.wf(),
            p.items@ == Seq::<Seq<TokV>>::empty(),
            p.base@ == tv(stream@),
            p.start@ == start@,
            p.punct@ == punct@,
            p.end@ == end@,
    {
        Punctuator {
            base: Ghost(tv(stream@)),
            stream,
            position: 0,
            start,
            punct,
            end,
            items: Ghost(Seq::empty()),
        }
    }

    /// Writes the start before the first item, the separator before the others.
    fn sep(&mut self)
        requires
            old(self).wf(),
            old(self).position < usize::MAX,
        ensures
            final(self).position == old(self).position + 1,
            final(self).items == old(self).items,
            final(self).base == old(self).base,
            final(self).start == old(self).start,
            final(self).punct == old(self).punct,
            final(self).end == old(self).end,
            old(self).position == 0 ==> tv(final(self).stream@) == old(self).base@ + tv(old(self).start@),
            old(self).position > 0 ==> tv(final(self).stream@) == tv(old(self).stream@) + tv(old(self).punct@),
    {
        if self.position == 0 {
            extend(&mut self.stream, &self.start);
        } else {
            extend(&mut self.stream, &self.punct);
        }
        self.position = self.position + 1;
    }

    /// Writes one item.
    pub fn push(&mut self, tokens: &Vec<Tok>)
        requires
            old(self).wf(),
            old(self).position < usize::MAX,
        ensures
            final(self).wf(),
            final(self).items@ == old(self).items@.push(tv(tokens@)),
            final(self).base == old(self).base,
            final(self).start == old(self).start,
            final(self).punct == old(self).punct,
            final(self).end == old(self).end,
    {
        let ghost old_items = self.items@;
        self.sep();
        extend(&mut self.stream, tokens);
        self.items = Ghost(old_items.push(tv(tokens@)));
        proof {
            let items = self.items@;
            assert(items.drop_last() =~= old_items);
            if old_items.len() == 0 {
                assert(join(items, tv(self.punct@)) == tv(tokens@));
                assert(tv(self.stream@) =~= self.base@ + tv(self.start@) + join(items, tv(self.punct@)));
            } else {
                assert(join(items, tv(self.punct@)) == join(old_items, tv(self.punct@)) + tv(self.punct@) + tv(tokens@));
                assert(tv(self.stream@) =~= self.base@ + tv(self.start@) + join(items, tv(self.punct@)));
            }
        }
    }

    /// Ends the list, writing `end` if any item was written.
    pub fn finish(self) -> (stream: Vec<Tok>)
        requires
            self.wf(),
        ensures
            tv(stream@) == self.base@ + punctuated(tv(self.start@), self.items@, tv(self.punct@), tv(self.end@)),
    {
        let mut stream = self.stream;
        if self.position > 0 {
            extend(&mut stream, &self.end);
        } else {
            assert(tv(stream@) =~= self.base@ + Seq::<TokV>::empty());
        }
        stream
    }
}

/// The punctuator for a comma separated list without brackets.
pub fn comma_sep(stream: Vec<Tok>, span: Span) -> (p: Punctuator)
    ensures
        p.wf(),
        p.items@ == Seq::<Seq<TokV>>::empty(),
        p.base@ == tv(stream@),
        tv(p.start@) == Seq::<TokV>::empty(),
        tv(p.punct@) == seq![punct_v(',', Spacing::Alone, span)],
        tv(p.end@) == Seq::<TokV>::empty(),
{
    let mut punct = Vec::new();
    push_punct(&mut punct, ',', span);
    Punctuator::new(stream, Vec::new(), punct, Vec::new())
}


/// The views of a list of token sequences.
pub open spec fn items_view(items: Seq<Vec<Tok>>) -> Seq<Seq<TokV>> {
    items.map_values(|v: Vec<Tok>| tv(v@))
}

/// Appends the items separated by `sep`, with `start` before and `end` after them when there
/// is at least one item.
pub fn push_punctuated(out: &mut Vec<Tok>, start: Vec<Tok>, items: &Vec<Vec<Tok>>, sep: Vec<Tok>, end: Vec<Tok>)
    ensures
        tv(final(out)@) == tv(old(out)@) + punctuated(tv(start@), items_view(items@), tv(sep@), tv(end@)),
{
    let mut stream: Vec<Tok> = Vec::new();
    std::mem::swap(&mut stream, out);
    let ghost base = tv(stream@);
    let ghost all = items_view(items@);
    let ghost st = tv(start@);
    let ghost sp = tv(sep@);
    let ghost en = tv(end@);
    let mut p = Punctuator::new(stream, start, sep, end);
    assert(all.take(0) =~= Seq::<Seq<TokV>>::empty());
    let mut i: usize = 0;
    while i < items.len()
        invariant
            i <= items@.len(),
            p.wf(),
            p.position == i,
            p.base@ == base,
            tv(p.start@) == st,
            tv(p.punct@) == sp,
            tv(p.end@) == en,
            all == items_view(items@),
            p.items@ == all.take(i as int),
        decreases items@.len() - i,
    {
        p.push(&items[i]);
        assert(all.take(i + 1) =~= all.take(i as int).push(tv(items@[i as int]@)));
        i = i + 1;
    }
    assert(all.take(items@.len() as int) =~= all);
    let stream = p.finish();
    *out = stream;
}

/// Appends the items separated by `sep`.
pub fn push_joined(out: &mut Vec<Tok>, items: &Vec<Vec<Tok>>, sep: Vec<Tok>)
    ensures
        tv(final(out)@) == tv(old(out)@) + join(items_view(items@), tv(sep@)),
{
    let ghost base = tv(out@);
    let ghost sp = tv(sep@);
    push_punctuated(out, Vec::new(), items, sep, Vec::new());
    proof {
        let all = items_view(items@);
        assert(tv(Seq::<Tok>::empty()) =~= Seq::<TokV>::empty());
        if all.len() == 0 {
            assert(join(all, sp) =~= Seq::<TokV>::empty());
            assert(tv(out@) =~= base + join(all, sp));
        } else {
            assert(tv(out@) =~= base + join(all, sp));
        }
    }
}

/// A single punctuation character that stands alone.
pub fn punct_vec(c: char, span: Span) -> (r: Vec<Tok>)
    ensures
        tv(r@) == seq![punct_v(c, Spacing::Alone, span)],
{
    let mut r: Vec<Tok> = Vec::new();
    push_punct(&mut r, c, span);
    assert(tv(r@) =~= seq![punct_v(c, Spacing::Alone, span)]);
    r
}

pub proof fn lemma_add_assoc(a: Seq<TokV>, b: Seq<TokV>, c: Seq<TokV>)
    ensures
        (a + b) + c == a + (b + c),
{
    assert((a + b) + c =~= a + (b + c));
}

pub proof fn lemma_push_add(a: Seq<TokV>, b: Seq<TokV>, x: TokV)
    ensures
        (a + b).push(x) == a + (b + seq![x]),
{
    assert((a + b).push(x) =~= a + (b + seq![x]));
}
} // verus!
