//! The wrapper error type and its surrounding conveniences.
//!
//! A wrapper pairs a domain-specific error context with an optional
//! underlying cause and a captured execution-stack snapshot.  The extension
//! traits turn an empty `Option` or a failed `Result` into such a wrapper
//! through a context factory.

use vstd::prelude::*;
use crate::fields::Fields;
use crate::from_impl::{Constructor, ConstructorV, FromImplFor};

verus! {

/// The captured stack type of the outside backtrace crate.
#[verifier::external_type_specification]
#[verifier::external_body]
pub struct ExBacktrace(backtrace::Backtrace);

/// Relies on backtrace::Backtrace::new: captures the stack of the running
/// thread.  Nothing is promised of the captured value.
#[verifier::external_body]
fn capture_backtrace() -> backtrace::Backtrace {
    backtrace::Backtrace::new()
}

/// A plain stand-in for an underlying external cause: the text it would
/// show.
pub struct SourceError {
    pub description: String,
}

impl SourceError {
    /// Wraps the text of an underlying cause.
    pub fn new(description: String) -> (r: SourceError)
        ensures
            r.description@ == description@,
    {
        SourceError { description }
    }
}

/// Marker for generated discriminant types.
pub trait EvitableErrorKind {

}

impl EvitableErrorKind for crate::from_context::KindValue {

}

/// An error context: a value that knows its discriminant.
pub trait ErrorContext: Sized {
    /// The discriminant type.
    type Kind;

    /// The discriminant of this context.
    fn kind(&self) -> Self::Kind;
}

/// The generated wrapper: a context, an optional underlying cause, and a
/// captured execution-stack snapshot.
pub struct WrappedError<C> {
    pub context: C,
    pub source: Option<SourceError>,
    pub backtrace: backtrace::Backtrace,
}

impl<C> WrappedError<C> {
    /// Wraps a context with an optional cause, capturing the stack.
    pub fn new(context: C, source: Option<SourceError>) -> (r: WrappedError<C>)
        ensures
            r.context == context,
            r.source == source,
    {
        let backtrace = capture_backtrace();
        WrappedError { context, source, backtrace }
    }

    /// Wraps a context with no cause.
    pub fn from_context(context: C) -> (r: WrappedError<C>)
        ensures
            r.context == context,
            r.source is None,
    {
        Self::new(context, None)
    }

    /// Wraps a context with a cause.
    pub fn from_error_context(context: C, source: SourceError) -> (r: WrappedError<C>)
        ensures
            r.context == context,
            r.source matches Some(s) && s.description@ == source.description@,
    {
        Self::new(context, Some(source))
    }

    /// The wrapped context.
    pub fn context(&self) -> (r: &C)
        ensures
            r == &self.context,
    {
        &self.context
    }

    /// The underlying cause, if any.
    pub fn source(&self) -> (r: &Option<SourceError>)
        ensures
            r == &self.source,
    {
        &self.source
    }

    /// The captured stack snapshot.
    pub fn backtrace(&self) -> &backtrace::Backtrace {
        &self.backtrace
    }

    /// The wrapper's rendered text, given the context's own rendered text:
    /// the context text alone, or, when a cause is present, followed by a
    /// separator line and the cause's text.
    pub fn render(&self, context_text: &str) -> (r: String)
        ensures
            r@ == s_wrapped_text(context_text@, self.source),
    {
        let mut out = context_text.to_owned();
        match &self.source {
            None => {},
            Some(s) => {
                out.append("\n---- source ----\n");
                out.append(s.description.as_str());
            },
        }
        out
    }
}

/// What a wrapper renders as: the context's text, then, when a cause is
/// present, a separator line and the cause's text.
pub open spec fn s_wrapped_text(context_text: Seq<char>, source: Option<SourceError>) -> Seq<
    char,
> {
    match source {
        None => context_text,
        Some(s) => context_text + "\n---- source ----\n"@ + s.description@,
    }
}

impl<C: ErrorContext> WrappedError<C> {
    /// The discriminant of the wrapped context.
    pub fn kind(&self) -> C::Kind {
        self.context.kind()
    }
}

/// Turns an empty carrier into a wrapper error built from a context
/// factory.
pub trait OptionExt<T, C>: Sized {
    /// Converts to a `Result` whose error case wraps the factory's context.
    fn context<F: FnOnce() -> C>(self, f: F) -> (r: Result<T, WrappedError<C>>)
        requires
            call_requires(f, ()),
        ensures
            true,
    ;
}

/// Turns a failed carrier into a wrapper error built from a context
/// factory that sees the original failure.
pub trait ResultExt<T, E, C>: Sized {
    /// Converts to a `Result` whose error case wraps the factory's context
    /// and keeps the original failure as the cause.
    fn context_with<F: FnOnce(&E) -> C>(self, f: F) -> (r: Result<T, WrappedError<C>>)
        requires
            forall|e: &E| call_requires(f, (e,)),
        ensures
            true,
    ;
}

impl<T, C> OptionExt<T, C> for Option<T> {
    /// An empty option becomes a wrapper with no cause.
    fn context<F: FnOnce() -> C>(self, f: F) -> (r: Result<T, WrappedError<C>>)
        ensures
            match self {
                Some(v) => r matches Ok(rv) && rv == v,
                None => r matches Err(w) && w.source is None && call_ensures(f, (), w.context),
            },
    {
        match self {
            Some(v) => Ok(v),
            None => Err(WrappedError::from_context(f())),
        }
    }
}

impl<T, C> OptionExt<T, C> for Result<T, SourceError> {
    /// A failed result becomes a wrapper that keeps the failure as cause.
    fn context<F: FnOnce() -> C>(self, f: F) -> (r: Result<T, WrappedError<C>>)
        ensures
            match self {
                Ok(v) => r matches Ok(rv) && rv == v,
                Err(e) => r matches Err(w) && (w.source matches Some(s) && s.description@
                    == e.description@) && call_ensures(f, (), w.context),
            },
    {
        match self {
            Ok(v) => Ok(v),
            Err(e) => Err(WrappedError::from_error_context(f(), e)),
        }
    }
}

impl<T, C> ResultExt<T, SourceError, C> for Result<T, SourceError> {
    /// A failed result becomes a wrapper whose context saw the failure and
    /// which keeps it as cause.
    fn context_with<F: FnOnce(&SourceError) -> C>(self, f: F) -> (r: Result<
        T,
        WrappedError<C>,
    >)
        ensures
            match self {
                Ok(v) => r matches Ok(rv) && rv == v,
                Err(e) => r matches Err(w) && (w.source matches Some(s) && s.description@
                    == e.description@) && call_ensures(f, (&e,), w.context),
            },
    {
        match self {
            Ok(v) => Ok(v),
            Err(e) => {
                let c = f(&e);
                Err(WrappedError::from_error_context(c, e))
            },
        }
    }
}

/// The fieldless context instance a conversion constructs: the case it
/// names, and an empty field-value shape matching the declaration.
pub struct ContextInstance {
    pub case: Option<String>,
    pub values: Fields<String>,
}

/// What instance a constructor builds.
pub open spec fn s_instance_of(ctor: ConstructorV) -> (Option<Seq<char>>, crate::fields::FieldsV<
    Seq<char>,
>) {
    match ctor {
        ConstructorV::Unit => (None, crate::fields::FieldsV::Unit),
        ConstructorV::Named => (None, crate::fields::FieldsV::Named(Seq::empty())),
        ConstructorV::Unnamed => (None, crate::fields::FieldsV::Unnamed(Seq::empty())),
        ConstructorV::VariantUnit(v) => (Some(v), crate::fields::FieldsV::Unit),
        ConstructorV::VariantNamed(v) => (Some(v), crate::fields::FieldsV::Named(Seq::empty())),
        ConstructorV::VariantUnnamed(v) => (
            Some(v),
            crate::fields::FieldsV::Unnamed(Seq::empty()),
        ),
    }
}

impl FromImplFor {
    /// The fieldless context instance this conversion constructs.
    pub fn instance(&self) -> (r: ContextInstance)
        ensures
            ({
                let expect = s_instance_of(self.ctor.deep_view());
                (match r.case {
                    Some(c) => expect.0 == Some(c@),
                    None => expect.0 is None,
                }) && r.values.deep_view() == expect.1
            }),
    {
        match &self.ctor {
            Constructor::Unit => ContextInstance { case: None, values: Fields::Unit },
            Constructor::Named => {
                let inner: Vec<crate::fields::NamedField<String>> = Vec::new();
                proof {
                    assert(inner.deep_view() =~= Seq::<crate::fields::NamedFieldV<
                        Seq<char>,
                    >>::empty());
                }
                ContextInstance { case: None, values: Fields::Named(inner) }
            },
            Constructor::Unnamed => {
                let inner: Vec<crate::fields::IndexedField<String>> = Vec::new();
                proof {
                    assert(inner.deep_view() =~= Seq::<crate::fields::IndexedFieldV<
                        Seq<char>,
                    >>::empty());
                }
                ContextInstance { case: None, values: Fields::Unnamed(inner) }
            },
            Constructor::VariantUnit(v) => ContextInstance {
                case: Some(v.clone()),
                values: Fields::Unit,
            },
            Constructor::VariantNamed(v) => {
                let inner: Vec<crate::fields::NamedField<String>> = Vec::new();
                proof {
                    assert(inner.deep_view() =~= Seq::<crate::fields::NamedFieldV<
                        Seq<char>,
                    >>::empty());
                }
                ContextInstance { case: Some(v.clone()), values: Fields::Named(inner) }
            },
            Constructor::VariantUnnamed(v) => {
                let inner: Vec<crate::fields::IndexedField<String>> = Vec::new();
                proof {
                    assert(inner.deep_view() =~= Seq::<crate::fields::IndexedFieldV<
                        Seq<char>,
                    >>::empty());
                }
                ContextInstance { case: Some(v.clone()), values: Fields::Unnamed(inner) }
            },
        }
    }

    /// Applies the conversion to an underlying cause: constructs the
    /// fieldless context and wraps it with the cause.
    pub fn convert(&self, source: SourceError) -> (r: WrappedError<ContextInstance>)
        ensures
            ({
                let expect = s_instance_of(self.ctor.deep_view());
                (match r.context.case {
                    Some(c) => expect.0 == Some(c@),
                    None => expect.0 is None,
                }) && r.context.values.deep_view() == expect.1 && (r.source matches Some(s)
                    && s.description@ == source.description@)
            }),
    {
        WrappedError::from_error_context(self.instance(), source)
    }
}

} // verus!
