//! Diagnostics for the attribute front-end.
//!
//! Every failure of parsing, typed extraction, model building or reference
//! resolution is one of the variants below.  The payload names the offending
//! piece (a field name, a literal, a shape) so that a caller can surface it.

use vstd::prelude::*;
use crate::meta::{Lit, LitV, lit_dv};

verus! {

/// A diagnostic raised while parsing an attribute grammar tree or while
/// building the error-type model from it.
#[derive(Debug, Clone, PartialEq, Eq)]
pub enum Error {
    /// A node shape did not match what the target type accepts.
    UnexpectedType(String),
    /// A literal subtype did not match what the target type accepts.
    UnexpectedLitType(Lit),
    /// A node form (word, list) that the target type does not accept.
    UnsupportedFormat(String),
    /// A required attribute entry was absent.
    MissingField(String),
    /// An attribute entry was present but never read.
    UnknownField(String),
    /// A value was of the right shape but outside the accepted set.
    UnknownValue(String),
    /// The declaration shape is incompatible with the requested feature.
    UnsupportedShape(String),
    /// The token sequence did not match the attribute grammar.
    Parse(String),
}

/// Mathematical image of [`Error`].
pub enum ErrorV {
    UnexpectedType(Seq<char>),
    UnexpectedLitType(LitV),
    UnsupportedFormat(Seq<char>),
    MissingField(Seq<char>),
    UnknownField(Seq<char>),
    UnknownValue(Seq<char>),
    UnsupportedShape(Seq<char>),
    Parse(Seq<char>),
}

pub open spec fn error_dv(e: Error) -> ErrorV {
    match e {
        Error::UnexpectedType(s) => ErrorV::UnexpectedType(s@),
        Error::UnexpectedLitType(l) => ErrorV::UnexpectedLitType(lit_dv(l)),
        Error::UnsupportedFormat(s) => ErrorV::UnsupportedFormat(s@),
        Error::MissingField(s) => ErrorV::MissingField(s@),
        Error::UnknownField(s) => ErrorV::UnknownField(s@),
        Error::UnknownValue(s) => ErrorV::UnknownValue(s@),
        Error::UnsupportedShape(s) => ErrorV::UnsupportedShape(s@),
        Error::Parse(s) => ErrorV::Parse(s@),
    }
}

impl DeepView for Error {
    type V = ErrorV;

    open spec fn deep_view(&self) -> ErrorV {
        error_dv(*self)
    }
}

impl Error {
    pub fn unexpected_type(what: &str) -> (r: Error)
        ensures
            r.deep_view() == ErrorV::UnexpectedType(what@),
    {
        Error::UnexpectedType(what.to_owned())
    }

    pub fn unexpected_lit_type(lit: &Lit) -> (r: Error)
        ensures
            r.deep_view() == ErrorV::UnexpectedLitType(lit.deep_view()),
    {
        Error::UnexpectedLitType(lit.duplicate())
    }

    pub fn unsupported_format(what: &str) -> (r: Error)
        ensures
            r.deep_view() == ErrorV::UnsupportedFormat(what@),
    {
        Error::UnsupportedFormat(what.to_owned())
    }

    pub fn missing_field(name: &str) -> (r: Error)
        ensures
            r.deep_view() == ErrorV::MissingField(name@),
    {
        Error::MissingField(name.to_owned())
    }

    pub fn unknown_field(name: &str) -> (r: Error)
        ensures
            r.deep_view() == ErrorV::UnknownField(name@),
    {
        Error::UnknownField(name.to_owned())
    }

    pub fn unknown_value(value: &str) -> (r: Error)
        ensures
            r.deep_view() == ErrorV::UnknownValue(value@),
    {
        Error::UnknownValue(value.to_owned())
    }

    pub fn unsupported_shape(what: &str) -> (r: Error)
        ensures
            r.deep_view() == ErrorV::UnsupportedShape(what@),
    {
        Error::UnsupportedShape(what.to_owned())
    }
}

/// The result type used throughout the front-end.
pub type FmResult<T> = Result<T, Error>;

/// Deep view of a front-end result.
pub open spec fn res_dv<T: DeepView>(r: FmResult<T>) -> Result<T::V, ErrorV> {
    match r {
        Ok(v) => Ok(v.deep_view()),
        Err(e) => Err(e.deep_view()),
    }
}

} // verus!
