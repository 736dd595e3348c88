//! Conversions from underlying failures into wrapper errors.

use evitable::fields::{Fields, NamedField};
use evitable::meta::{Lit, Meta, Path};
use evitable::model::{ErrorType, TypeDecl, DataDecl, FieldDecl, VariantDecl};
use evitable::parse::{Attribute, Token};
use evitable::runtime::{OptionExt, SourceError, WrappedError};
use evitable::visibility::Visibility;

fn ident(s: &str) -> Token {
    Token::Ident(s.to_string())
}

fn lit_str(s: &str) -> Token {
    Token::Literal(Lit::Str(s.to_string()))
}

fn evitable_attr(inner: Vec<Token>) -> Meta {
    let attr = Attribute {
        path: Path { leading_colon: false, segments: vec!["evitable".to_string()] },
        tokens: vec![Token::Group(inner)],
    };
    attr.meta().expect("attribute tokens should parse")
}

fn path_tokens(segments: &[&str]) -> Vec<Token> {
    let mut out = Vec::new();
    for (i, s) in segments.iter().enumerate() {
        if i > 0 {
            out.push(Token::PathSep);
        }
        out.push(ident(s));
    }
    out
}

/// enum Context { Custom { code: u8 }, Io (with from = std::io::Error) }
fn context_decl() -> TypeDecl {
    let mut io_attr = vec![ident("description"), Token::Eq, lit_str("Io"), Token::Comma];
    io_attr.push(ident("from"));
    io_attr.push(Token::Eq);
    io_attr.extend(path_tokens(&["std", "io", "Error"]));
    TypeDecl {
        ident: "Context".to_string(),
        vis: Visibility::Public,
        attrs: vec![],
        data: DataDecl::Enum(vec![
            VariantDecl {
                ident: "Custom".to_string(),
                attrs: vec![evitable_attr(vec![
                    ident("description"),
                    Token::Group(vec![lit_str("Custom error ({})"), Token::Comma, ident("code")]),
                ])],
                fields: Fields::Named(vec![NamedField {
                    name: "code".to_string(),
                    value: FieldDecl {
                        attrs: vec![evitable_attr(vec![ident("include_in_kind")])],
                        ty: "u8".to_string(),
                    },
                }]),
            },
            VariantDecl {
                ident: "Io".to_string(),
                attrs: vec![evitable_attr(io_attr)],
                fields: Fields::Unit,
            },
        ]),
    }
}

#[derive(Debug, PartialEq)]
enum Context {
    Custom { code: u8 },
}

#[test]
fn from_io() {
    let ty = ErrorType::from_decl(&context_decl()).expect("model should build");
    // one conversion was declared, on the fieldless Io variant
    assert_eq!(ty.impls_from.len(), 1);
    let conv = &ty.impls_from[0];
    let err = conv.convert(SourceError::new("entity not found".to_string()));
    assert_eq!(err.context.case.as_deref(), Some("Io"));
    assert!(err.source().is_some());
}

#[test]
fn from_io_with_context() {
    fn fail() -> Result<(), WrappedError<Context>> {
        let source: Result<(), SourceError> = Err(SourceError::new(
            "entity not found".to_string(),
        ));
        let result = source.context(|| Context::Custom { code: 10 })?;
        Ok(result)
    }

    let err = fail().unwrap_err();
    assert_eq!(*err.context(), Context::Custom { code: 10 });
    assert!(err.source().is_some());
}

#[test]
fn option_context() {
    fn fail() -> Result<(), WrappedError<Context>> {
        let result = None.context(|| Context::Custom { code: 42 })?;
        Ok(result)
    }

    let err = fail().unwrap_err();
    assert_eq!(*err.context(), Context::Custom { code: 42 });
    assert!(err.source().is_none());
}

#[test]
fn rendered_text_carries_the_cause() {
    let with_cause: WrappedError<Context> = WrappedError::from_error_context(
        Context::Custom { code: 1 },
        SourceError::new("entity not found".to_string()),
    );
    assert_eq!(
        with_cause.render("Custom error (1)"),
        "Custom error (1)\n---- source ----\nentity not found"
    );

    let without_cause: WrappedError<Context> = WrappedError::from_context(Context::Custom {
        code: 1,
    });
    assert_eq!(without_cause.render("Custom error (1)"), "Custom error (1)");
}

#[test]
fn simple_test() {
    struct Plain;
    let _ = WrappedError::new(Plain, None);
}
