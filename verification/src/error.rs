use vstd::prelude::*;
use proc_macro2::Span;

verus! {

/// An error reported at a source location.
pub struct MacroError {
    pub span: Span,
    pub message: String,
}

pub struct ErrV {
    pub span: Span,
    pub message: Seq<char>,
}

impl View for MacroError {
    type V = ErrV;

    open spec fn view(&self) -> ErrV {
        ErrV { span: self.span, message: self.message@ }
    }
}

impl MacroError {
    pub fn new(span: Span, message: &str) -> (e: MacroError)
        ensures
            e@ == (ErrV { span, message: message@ }),
    {
        MacroError { span, message: crate::text::owned(message) }
    }
}

} // verus!
