//! The signature of a generated trait method, and the lifetimes gathered from it.

use vstd::prelude::*;
use crate::model::Signature;

verus! {

/// Where in a signature a lifetime was found.
#[derive(Copy, Clone, Eq, PartialEq, Structural, Debug)]
pub enum SigComponent {
    Receiver,
    Param(usize),
    Output,
    Base,
}

/// Whether the user wrote the lifetime, or the macro made it up.
#[derive(Copy, Clone, Eq, PartialEq, Structural, Debug)]
pub struct UserProvidedLifetime(pub bool);

/// Whether the lifetime occurs in the output type.
#[derive(Copy, Clone, Eq, PartialEq, Structural, Debug)]
pub struct UsedInOutput(pub bool);

/// A lifetime of a signature (name without apostrophe).
pub struct EntraitLifetime {
    pub lifetime: String,
    pub source: SigComponent,
    pub user_provided: UserProvidedLifetime,
    pub used_in_output: UsedInOutput,
}

pub struct EtV {
    pub lifetime: Seq<char>,
    pub source: SigComponent,
    pub user_provided: bool,
    pub used_in_output: bool,
}

impl View for EntraitLifetime {
    type V = EtV;

    open spec fn view(&self) -> EtV {
        EtV {
            lifetime: self.lifetime@,
            source: self.source,
            user_provided: self.user_provided.0,
            used_in_output: self.used_in_output.0,
        }
    }
}

pub open spec fn ets_view(s: Seq<EntraitLifetime>) -> Seq<EtV> {
    s.map_values(|e: EntraitLifetime| e@)
}

/// The fn signature inside the trait, with the lifetimes gathered from it.
pub struct EntraitSignature {
    pub sig: Signature,
    pub et_lifetimes: Vec<EntraitLifetime>,
}

impl EntraitSignature {
    pub fn new(sig: Signature) -> (r: EntraitSignature)
        ensures
            r.sig == sig,
            r.et_lifetimes@.len() == 0,
    {
        EntraitSignature { sig, et_lifetimes: Vec::new() }
    }
}

/// How the receiver of the trait method comes about.
#[derive(Clone, Copy, Eq, PartialEq, Structural, Debug)]
pub enum ReceiverGeneration {
    /// `&self` is inserted in front of the parameters.
    Insert,
    /// The first parameter is rewritten into a receiver.
    Rewrite,
    /// The parameters are left as they are.
    Unchanged,
}

/// The receiver of the methods in a generated impl.
#[derive(Clone, Copy, Eq, PartialEq, Structural, Debug)]
pub enum ImplReceiverKind {
    /// `(&self, ..)`
    SelfRef,
    /// `(&__impl, ..)`
    StaticImpl,
    /// `(&self, &__impl, ..)`
    DynamicImpl,
}

} // verus!
