//! A plain-value model of the Rust syntax the macros read and write: types, patterns,
//! generics and function signatures. Each piece keeps its tokens so it can be written back.

use vstd::prelude::*;
use proc_macro2::Span;
use crate::tokens::{Tok, TokV, tv};

verus! {

/// An identifier and where it was written.
pub struct Ident {
    pub name: String,
    pub span: Span,
}

pub struct IdentV {
    pub name: Seq<char>,
    pub span: Span,
}

impl View for Ident {
    type V = IdentV;

    open spec fn view(&self) -> IdentV {
        IdentV { name: self.name@, span: self.span }
    }
}

impl Ident {
    pub fn duplicate(&self) -> (r: Ident)
        ensures
            r == *self,
    {
        Ident { name: self.name.clone(), span: self.span }
    }
}

/// A visibility as written; no tokens for the inherited (private) visibility.
pub struct Visibility {
    pub tokens: Vec<Tok>,
}

/// A lifetime position inside a type, in the order a syntax visitor meets them.
#[derive(Clone, Copy, PartialEq, Eq, Structural, Debug)]
pub enum SlotKind {
    /// The lifetime of a reference type `&'a T`, which may be left out.
    Reference,
    /// A lifetime written anywhere else, such as `Foo<'a>` or `impl Trait + 'a`.
    Named,
}

/// One lifetime position; `name` is `None` only for a reference whose lifetime was left out.
/// Names are kept without the leading apostrophe.
pub struct LifetimeSlot {
    pub kind: SlotKind,
    pub name: Option<String>,
}

pub struct SlotV {
    pub kind: SlotKind,
    pub name: Option<Seq<char>>,
}

impl View for LifetimeSlot {
    type V = SlotV;

    open spec fn view(&self) -> SlotV {
        SlotV {
            kind: self.kind,
            name: match self.name {
                Some(n) => Some(n@),
                None => None,
            },
        }
    }
}

/// A trait bound or lifetime bound, kept as written.
pub struct Bound {
    pub tokens: Vec<Tok>,
}

/// The shape of a type, as far as the analysis reads it.
pub enum TypeShape {
    ImplTrait { bounds: Vec<Bound> },
    Path { qself: bool, leading_colon: bool, segments: Vec<Ident> },
    Reference { elem: Box<TypeModel> },
    Paren { elem: Box<TypeModel> },
    Other,
}

/// A type: its shape, its tokens, its lifetime slots and where it was written. In `tokens`,
/// the token `Slot(k)` stands for the lifetime in `slots[k]`.
pub struct TypeModel {
    pub shape: TypeShape,
    pub tokens: Vec<Tok>,
    pub slots: Vec<LifetimeSlot>,
    pub span: Span,
}

pub open spec fn bounds_view(b: Seq<Bound>) -> Seq<Seq<TokV>> {
    b.map_values(|x: Bound| tv(x.tokens@))
}

pub open spec fn idents_view(s: Seq<Ident>) -> Seq<IdentV> {
    s.map_values(|x: Ident| x@)
}

pub open spec fn slots_view(s: Seq<LifetimeSlot>) -> Seq<SlotV> {
    s.map_values(|x: LifetimeSlot| x@)
}

pub enum ShapeV {
    ImplTrait(Seq<Seq<TokV>>),
    Path { qself: bool, leading_colon: bool, segments: Seq<IdentV> },
    Reference(Box<TypeV>),
    Paren(Box<TypeV>),
    Other,
}

pub struct TypeV {
    pub shape: ShapeV,
    pub tokens: Seq<TokV>,
    pub slots: Seq<SlotV>,
    pub span: Span,
}

pub open spec fn type_view(t: TypeModel) -> TypeV
    decreases t,
{
    TypeV {
        shape: match t.shape {
            TypeShape::ImplTrait { bounds } => ShapeV::ImplTrait(bounds_view(bounds@)),
            TypeShape::Path { qself, leading_colon, segments } => ShapeV::Path {
                qself,
                leading_colon,
                segments: idents_view(segments@),
            },
            TypeShape::Reference { elem } => ShapeV::Reference(Box::new(type_view(*elem))),
            TypeShape::Paren { elem } => ShapeV::Paren(Box::new(type_view(*elem))),
            TypeShape::Other => ShapeV::Other,
        },
        tokens: tv(t.tokens@),
        slots: slots_view(t.slots@),
        span: t.span,
    }
}

impl View for TypeModel {
    type V = TypeV;

    open spec fn view(&self) -> TypeV {
        type_view(*self)
    }
}

/// A copy of a token sequence.
pub fn dup_toks(v: &Vec<Tok>) -> (r: Vec<Tok>)
    ensures
        r@ == v@,
        tv(r@) == tv(v@),
{
    let mut r: Vec<Tok> = Vec::new();
    crate::tokens::extend(&mut r, v);
    assert(r@ =~= v@);
    r
}

pub fn dup_bounds(v: &Vec<Bound>) -> (r: Vec<Bound>)
    ensures
        bounds_view(r@) == bounds_view(v@),
{
    let mut r: Vec<Bound> = Vec::new();
    let mut i: usize = 0;
    while i < v.len()
        invariant
            i <= v@.len(),
            r@.len() == i,
            bounds_view(r@) == bounds_view(v@.take(i as int)),
        decreases v@.len() - i,
    {
        let ghost before = r@;
        r.push(Bound { tokens: dup_toks(&v[i].tokens) });
        proof {
            let prev = v@.take(i as int);
            assert(r@.len() == i + 1);
            assert forall|k: int| 0 <= k < i + 1 implies bounds_view(r@)[k] == #[trigger] bounds_view(v@.take(i + 1))[k] by {
                if k < i {
                    assert(r@[k] == before[k]);
                    assert(bounds_view(before)[k] == bounds_view(prev)[k]);
                }
            }
            assert(bounds_view(r@) =~= bounds_view(v@.take(i + 1)));
        }
        i = i + 1;
    }
    assert(v@.take(v@.len() as int) =~= v@);
    r
}

pub fn dup_idents(v: &Vec<Ident>) -> (r: Vec<Ident>)
    ensures
        idents_view(r@) == idents_view(v@),
{
    let mut r: Vec<Ident> = Vec::new();
    let mut i: usize = 0;
    while i < v.len()
        invariant
            i <= v@.len(),
            r@.len() == i,
            idents_view(r@) == idents_view(v@.take(i as int)),
        decreases v@.len() - i,
    {
        let ghost before = r@;
        r.push(v[i].duplicate());
        proof {
            let prev = v@.take(i as int);
            assert(r@.len() == i + 1);
            assert forall|k: int| 0 <= k < i + 1 implies idents_view(r@)[k] == #[trigger] idents_view(v@.take(i + 1))[k] by {
                if k < i {
                    assert(r@[k] == before[k]);
                    assert(idents_view(before)[k] == idents_view(prev)[k]);
                }
            }
            assert(idents_view(r@) =~= idents_view(v@.take(i + 1)));
        }
        i = i + 1;
    }
    assert(v@.take(v@.len() as int) =~= v@);
    r
}

impl LifetimeSlot {
    pub fn duplicate(&self) -> (r: LifetimeSlot)
        ensures
            r@ == self@,
    {
        LifetimeSlot {
            kind: self.kind,
            name: match &self.name {
                Some(n) => Some(n.clone()),
                None => None,
            },
        }
    }
}

pub fn dup_slots(v: &Vec<LifetimeSlot>) -> (r: Vec<LifetimeSlot>)
    ensures
        slots_view(r@) == slots_view(v@),
{
    let mut r: Vec<LifetimeSlot> = Vec::new();
    let mut i: usize = 0;
    while i < v.len()
        invariant
            i <= v@.len(),
            r@.len() == i,
            slots_view(r@) == slots_view(v@.take(i as int)),
        decreases v@.len() - i,
    {
        let ghost before = r@;
        r.push(v[i].duplicate());
        proof {
            let prev = v@.take(i as int);
            assert(r@.len() == i + 1);
            assert forall|k: int| 0 <= k < i + 1 implies slots_view(r@)[k] == #[trigger] slots_view(v@.take(i + 1))[k] by {
                if k < i {
                    assert(r@[k] == before[k]);
                    assert(slots_view(before)[k] == slots_view(prev)[k]);
                }
            }
            assert(slots_view(r@) =~= slots_view(v@.take(i + 1)));
        }
        i = i + 1;
    }
    assert(v@.take(v@.len() as int) =~= v@);
    r
}

impl TypeModel {
    pub fn duplicate(&self) -> (r: TypeModel)
        ensures
            r@ == self@,
        decreases self,
    {
        let shape = match &self.shape {
            TypeShape::ImplTrait { bounds } => TypeShape::ImplTrait { bounds: dup_bounds(bounds) },
            TypeShape::Path { qself, leading_colon, segments } => TypeShape::Path {
                qself: *qself,
                leading_colon: *leading_colon,
                segments: dup_idents(segments),
            },
            TypeShape::Reference { elem } => TypeShape::Reference { elem: Box::new((**elem).duplicate()) },
            TypeShape::Paren { elem } => TypeShape::Paren { elem: Box::new((**elem).duplicate()) },
            TypeShape::Other => TypeShape::Other,
        };
        TypeModel { shape, tokens: dup_toks(&self.tokens), slots: dup_slots(&self.slots), span: self.span }
    }
}

#[derive(Clone, Copy, PartialEq, Eq, Structural, Debug)]
pub enum GenericParamKind {
    Type,
    Lifetime,
    Const,
}

/// A generic parameter. `ident` is the parameter's name (for a lifetime, without apostrophe);
/// `tokens` is the whole parameter as written, bounds and default included.
pub struct GenericParam {
    pub kind: GenericParamKind,
    pub ident: Ident,
    pub bounds: Vec<Bound>,
    pub tokens: Vec<Tok>,
}

pub struct GenericParamV {
    pub kind: GenericParamKind,
    pub ident: IdentV,
    pub bounds: Seq<Seq<TokV>>,
    pub tokens: Seq<TokV>,
}

impl View for GenericParam {
    type V = GenericParamV;

    open spec fn view(&self) -> GenericParamV {
        GenericParamV { kind: self.kind, ident: self.ident@, bounds: bounds_view(self.bounds@), tokens: tv(self.tokens@) }
    }
}

impl GenericParam {
    pub fn duplicate(&self) -> (r: GenericParam)
        ensures
            r@ == self@,
    {
        GenericParam {
            kind: self.kind,
            ident: self.ident.duplicate(),
            bounds: dup_bounds(&self.bounds),
            tokens: dup_toks(&self.tokens),
        }
    }
}

/// A where-clause predicate. `bounded` is the bounded type of a type predicate, `None` for a
/// lifetime predicate.
pub struct WherePredicate {
    pub bounded: Option<TypeModel>,
    pub bounds: Vec<Bound>,
    pub tokens: Vec<Tok>,
}

pub struct WherePredicateV {
    pub bounded: Option<TypeV>,
    pub bounds: Seq<Seq<TokV>>,
    pub tokens: Seq<TokV>,
}

impl View for WherePredicate {
    type V = WherePredicateV;

    open spec fn view(&self) -> WherePredicateV {
        WherePredicateV {
            bounded: match self.bounded {
                Some(t) => Some(t@),
                None => None,
            },
            bounds: bounds_view(self.bounds@),
            tokens: tv(self.tokens@),
        }
    }
}

impl WherePredicate {
    pub fn duplicate(&self) -> (r: WherePredicate)
        ensures
            r@ == self@,
    {
        WherePredicate {
            bounded: match &self.bounded {
                Some(t) => Some(t.duplicate()),
                None => None,
            },
            bounds: dup_bounds(&self.bounds),
            tokens: dup_toks(&self.tokens),
        }
    }
}

pub struct Generics {
    pub params: Vec<GenericParam>,
    pub where_clause: Option<Vec<WherePredicate>>,
}

pub open spec fn params_view(s: Seq<GenericParam>) -> Seq<GenericParamV> {
    s.map_values(|x: GenericParam| x@)
}

pub open spec fn preds_view(s: Seq<WherePredicate>) -> Seq<WherePredicateV> {
    s.map_values(|x: WherePredicate| x@)
}

/// A parameter pattern: a plain binding, or any other pattern together with the
/// identifiers that occur in it, in visiting order.
pub enum PatModel {
    Ident { by_ref: bool, mutable: bool, ident: String, span: Span },
    Other { idents: Vec<(String, Span)>, tokens: Vec<Tok> },
}

pub enum PatV {
    Ident { by_ref: bool, mutable: bool, ident: Seq<char>, span: Span },
    Other { idents: Seq<(Seq<char>, Span)>, tokens: Seq<TokV> },
}

impl View for PatModel {
    type V = PatV;

    open spec fn view(&self) -> PatV {
        match self {
            PatModel::Ident { by_ref, mutable, ident, span } => PatV::Ident {
                by_ref: *by_ref,
                mutable: *mutable,
                ident: ident@,
                span: *span,
            },
            PatModel::Other { idents, tokens } => PatV::Other {
                idents: idents@.map_values(|p: (String, Span)| (p.0@, p.1)),
                tokens: tv(tokens@),
            },
        }
    }
}

/// A function parameter. A receiver has an optional reference with an optional lifetime
/// slot, or an explicit type (`self: Box<Self>`).
pub enum FnArg {
    Receiver { reference: Option<LifetimeSlot>, mutable: bool, self_ty: Option<TypeModel>, span: Span },
    Typed { attrs: Vec<Tok>, pat: PatModel, ty: TypeModel },
}

pub struct Signature {
    pub prefix: Vec<Tok>,
    pub asyncness: bool,
    pub ident: String,
    pub span: Span,
    pub generics: Generics,
    pub inputs: Vec<FnArg>,
    pub output: Option<TypeModel>,
}

impl FnArg {
    pub open spec fn is_receiver(&self) -> bool {
        self matches FnArg::Receiver { .. }
    }
}


pub enum FnArgV {
    Receiver { reference: Option<SlotV>, mutable: bool, self_ty: Option<TypeV>, span: Span },
    Typed { attrs: Seq<TokV>, pat: PatV, ty: TypeV },
}

impl View for FnArg {
    type V = FnArgV;

    open spec fn view(&self) -> FnArgV {
        match self {
            FnArg::Receiver { reference, mutable, self_ty, span } => FnArgV::Receiver {
                reference: match reference {
                    Some(r) => Some(r@),
                    None => None,
                },
                mutable: *mutable,
                self_ty: match self_ty {
                    Some(t) => Some(t@),
                    None => None,
                },
                span: *span,
            },
            FnArg::Typed { attrs, pat, ty } => FnArgV::Typed { attrs: tv(attrs@), pat: pat@, ty: ty@ },
        }
    }
}

pub open spec fn args_view(s: Seq<FnArg>) -> Seq<FnArgV> {
    s.map_values(|a: FnArg| a@)
}

/// A signature with its parts seen as values.
pub struct SigV {
    pub prefix: Seq<TokV>,
    pub asyncness: bool,
    pub ident: Seq<char>,
    pub span: Span,
    pub params: Seq<GenericParamV>,
    pub where_clause: Option<Seq<WherePredicateV>>,
    pub inputs: Seq<FnArgV>,
    pub output: Option<TypeV>,
}

impl View for Signature {
    type V = SigV;

    open spec fn view(&self) -> SigV {
        SigV {
            prefix: tv(self.prefix@),
            asyncness: self.asyncness,
            ident: self.ident@,
            span: self.span,
            params: params_view(self.generics.params@),
            where_clause: match self.generics.where_clause {
                Some(w) => Some(preds_view(w@)),
                None => None,
            },
            inputs: args_view(self.inputs@),
            output: match self.output {
                Some(t) => Some(t@),
                None => None,
            },
        }
    }
}

fn dup_named(v: &Vec<(String, Span)>) -> (r: Vec<(String, Span)>)
    ensures
        r@.map_values(|p: (String, Span)| (p.0@, p.1)) == v@.map_values(|p: (String, Span)| (p.0@, p.1)),
{
    let mut r: Vec<(String, Span)> = Vec::new();
    let mut i: usize = 0;
    while i < v.len()
        invariant
            i <= v@.len(),
            r@.len() == i,
            forall|k: int| 0 <= k < i ==> #[trigger] r@[k].0@ == v@[k].0@ && r@[k].1 == v@[k].1,
        decreases v@.len() - i,
    {
        r.push((v[i].0.clone(), v[i].1));
        i = i + 1;
    }
    assert(r@.map_values(|p: (String, Span)| (p.0@, p.1)) =~= v@.map_values(|p: (String, Span)| (p.0@, p.1)));
    r
}

impl PatModel {
    pub fn duplicate(&self) -> (r: PatModel)
        ensures
            r@ == self@,
    {
        match self {
            PatModel::Ident { by_ref, mutable, ident, span } => PatModel::Ident {
                by_ref: *by_ref,
                mutable: *mutable,
                ident: ident.clone(),
                span: *span,
            },
            PatModel::Other { idents, tokens } => PatModel::Other { idents: dup_named(idents), tokens: dup_toks(tokens) },
        }
    }
}

impl FnArg {
    pub fn duplicate(&self) -> (r: FnArg)
        ensures
            r@ == self@,
    {
        match self {
            FnArg::Receiver { reference, mutable, self_ty, span } => FnArg::Receiver {
                reference: match reference {
                    Some(l) => Some(l.duplicate()),
                    None => None,
                },
                mutable: *mutable,
                self_ty: match self_ty {
                    Some(t) => Some(t.duplicate()),
                    None => None,
                },
                span: *span,
            },
            FnArg::Typed { attrs, pat, ty } => FnArg::Typed { attrs: dup_toks(attrs), pat: pat.duplicate(), ty: ty.duplicate() },
        }
    }
}

pub fn dup_args(v: &Vec<FnArg>) -> (r: Vec<FnArg>)
    ensures
        args_view(r@) == args_view(v@),
{
    let mut r: Vec<FnArg> = Vec::new();
    let mut i: usize = 0;
    while i < v.len()
        invariant
            i <= v@.len(),
            r@.len() == i,
            forall|k: int| 0 <= k < i ==> #[trigger] r@[k]@ == v@[k]@,
        decreases v@.len() - i,
    {
        r.push(v[i].duplicate());
        i = i + 1;
    }
    assert(args_view(r@) =~= args_view(v@));
    r
}

pub fn dup_params(v: &Vec<GenericParam>) -> (r: Vec<GenericParam>)
    ensures
        params_view(r@) == params_view(v@),
{
    let mut r: Vec<GenericParam> = Vec::new();
    let mut i: usize = 0;
    while i < v.len()
        invariant
            i <= v@.len(),
            r@.len() == i,
            forall|k: int| 0 <= k < i ==> #[trigger] r@[k]@ == v@[k]@,
        decreases v@.len() - i,
    {
        r.push(v[i].duplicate());
        i = i + 1;
    }
    assert(params_view(r@) =~= params_view(v@));
    r
}

pub fn dup_preds(v: &Vec<WherePredicate>) -> (r: Vec<WherePredicate>)
    ensures
        preds_view(r@) == preds_view(v@),
{
    let mut r: Vec<WherePredicate> = Vec::new();
    let mut i: usize = 0;
    while i < v.len()
        invariant
            i <= v@.len(),
            r@.len() == i,
            forall|k: int| 0 <= k < i ==> #[trigger] r@[k]@ == v@[k]@,
        decreases v@.len() - i,
    {
        r.push(v[i].duplicate());
        i = i + 1;
    }
    assert(preds_view(r@) =~= preds_view(v@));
    r
}

impl Signature {
    pub fn duplicate(&self) -> (r: Signature)
        ensures
            r@ == self@,
    {
        Signature {
            prefix: dup_toks(&self.prefix),
            asyncness: self.asyncness,
            ident: self.ident.clone(),
            span: self.span,
            generics: Generics {
                params: dup_params(&self.generics.params),
                where_clause: match &self.generics.where_clause {
                    Some(w) => Some(dup_preds(w)),
                    None => None,
                },
            },
            inputs: dup_args(&self.inputs),
            output: match &self.output {
                Some(t) => Some(t.duplicate()),
                None => None,
            },
        }
    }
}
} // verus!
