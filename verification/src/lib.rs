//! A declarative error-type framework: a miniature attribute-grammar
//! front-end (parsing a generic key/value/list syntax, typed extraction,
//! cross-referential validation of field references) paired with a
//! multi-artifact generator for error-handling boilerplate, modelled
//! structurally and serialized to source text by a proved emitter.

pub mod attrs;
pub mod description;
pub mod display;
pub mod emit;
pub mod error;
pub mod fields;
pub mod from_context;
pub mod from_impl;
pub mod from_meta;
pub mod idents;
pub mod kinds;
pub mod meta;
pub mod model;
pub mod parse;
pub mod render;
pub mod runtime;
pub mod trait_assert;
pub mod util;
pub mod visibility;
