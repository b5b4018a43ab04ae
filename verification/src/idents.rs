//! Identifiers the generated code refers to.

use vstd::prelude::*;
use proc_macro2::Span;
use crate::model::Ident;
use crate::text::owned;

verus! {

/// Names of crates the generated code refers to.
pub struct CrateIdents {
    pub entrait: Ident,
    pub core: Ident,
    pub __unimock: Ident,
    pub unimock: Ident,
}

fn make_ident(name: &str, span: Span) -> (r: Ident)
    ensures
        r.name@ == name@,
        r.span == span,
{
    Ident { name: owned(name), span }
}

impl CrateIdents {
    pub open spec fn spec_wf(&self, span: Span) -> bool {
        &&& self.entrait.name@ == "entrait"@ && self.entrait.span == span
        &&& self.core.name@ == "core"@ && self.core.span == span
        &&& self.__unimock.name@ == "__unimock"@ && self.__unimock.span == span
        &&& self.unimock.name@ == "unimock"@ && self.unimock.span == span
    }

    pub fn duplicate(&self) -> (r: CrateIdents)
        ensures
            r == *self,
    {
        CrateIdents {
            entrait: self.entrait.duplicate(),
            core: self.core.duplicate(),
            __unimock: self.__unimock.duplicate(),
            unimock: self.unimock.duplicate(),
        }
    }

    pub fn new(span: Span) -> (r: CrateIdents)
        ensures
            r.spec_wf(span),
    {
        CrateIdents {
            entrait: make_ident("entrait", span),
            core: make_ident("core", span),
            __unimock: make_ident("__unimock", span),
            unimock: make_ident("unimock", span),
        }
    }
}

/// The identifiers of the generic `Impl<T>` implementation.
pub struct GenericIdents {
    pub crate_idents: CrateIdents,
    /// "Impl"
    pub impl_self: Ident,
    /// The "T" in `Impl<T>`
    pub impl_t: Ident,
}

impl GenericIdents {
    pub open spec fn spec_wf(&self, span: Span) -> bool {
        &&& self.impl_self.name@ == "Impl"@ && self.impl_self.span == span
        &&& self.impl_t.name@ == "EntraitT"@ && self.impl_t.span == span
    }

    pub fn new(crate_idents: CrateIdents, span: Span) -> (r: GenericIdents)
        ensures
            r.spec_wf(span),
            r.crate_idents == crate_idents,
    {
        GenericIdents {
            crate_idents,
            impl_self: make_ident("Impl", span),
            impl_t: make_ident("EntraitT", span),
        }
    }
}

} // verus!
