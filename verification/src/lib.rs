//! Verified core of the entrait attribute macros: option handling, signature analysis,
//! dependency detection, lifetime de-elision and token generation, all on plain values.

pub mod span;
pub mod text;
pub mod tokens;
pub mod model;
pub mod error;
pub mod fn_params;
pub mod signature;
pub mod lifetimes;
pub mod opt;
pub mod idents;
pub mod parse_util;
pub mod attr_parse;
pub mod input_attr;
pub mod analyze_generics;

pub mod render;
pub mod converter;
pub mod trait_fn;
pub mod generics;
pub mod attributes;
pub mod sub_attributes;
pub mod trait_codegen;
pub mod fn_delegation_codegen;
pub mod input;
pub mod entrait_fn;
pub mod entrait_trait;
pub mod entrait_impl;
pub mod item_parse;
pub mod invoke;
pub mod slots;
pub mod static_async_trait;
