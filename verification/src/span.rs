use vstd::prelude::*;

verus! {

/// Source locations are carried through the logic untouched; the library never looks inside one.
#[verifier::external_type_specification]
#[verifier::external_body]
pub struct ExSpan(proc_macro2::Span);

/// `Clone` of `proc_macro2::Span`, a `Copy` type: the clone is the same span.
pub assume_specification[ <proc_macro2::Span as Clone>::clone ](s: &proc_macro2::Span) -> (res: proc_macro2::Span)
    ensures
        res == *s,
;

/// `proc_macro2::Span::call_site`: the span of the macro invocation.
/// Nothing is claimed of the value: it is opaque to the library.
#[verifier::external_body]
pub(crate) fn call_site() -> (span: proc_macro2::Span) {
    proc_macro2::Span::call_site()
}

} // verus!
