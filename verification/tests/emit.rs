//! Serialization of the generated artifacts to source text.

use evitable::emit::{emit_error_type, emit_kind_enum, emit_from_impls};
use evitable::fields::{Fields, NamedField};
use evitable::kinds;
use evitable::meta::{Lit, Meta, Path};
use evitable::model::{ErrorType, FieldDecl, TypeDecl, DataDecl, VariantDecl};
use evitable::parse::{Attribute, Token};
use evitable::visibility::Visibility;

fn ident(s: &str) -> Token {
    Token::Ident(s.to_string())
}

fn lit_str(s: &str) -> Token {
    Token::Literal(Lit::Str(s.to_string()))
}

fn evitable_attr(inner: Vec<Token>) -> Meta {
    let attr = Attribute {
        path: Path { leading_colon: false, segments: vec!["evitable".to_string()] },
        tokens: vec![Token::Group(inner)],
    };
    attr.meta().expect("attribute tokens should parse")
}

fn foo_decl() -> TypeDecl {
    TypeDecl {
        ident: "Foo".to_string(),
        vis: Visibility::Public,
        attrs: vec![evitable_attr(vec![
            ident("description"),
            Token::Group(vec![lit_str("Error {0}"), Token::Comma, ident("code")]),
        ])],
        data: DataDecl::Struct(Fields::Named(vec![NamedField {
            name: "code".to_string(),
            value: FieldDecl {
                attrs: vec![evitable_attr(vec![ident("include_in_kind")])],
                ty: "u8".to_string(),
            },
        }])),
    }
}

#[test]
fn kind_enum_text_is_exact() {
    let ty = ErrorType::from_decl(&foo_decl()).expect("model should build");
    let ks = kinds::for_type(&ty);
    let text = emit_kind_enum(&ks);
    let expected = "#[derive(PartialEq, Debug, Clone, Copy)]\npub enum ErrorKind {\n    Foo { code: u8, },\n    #[doc(hidden)]\n    __Nonexhaustive,\n}\nimpl ::std::fmt::Display for ErrorKind { fn fmt(&self, f: &mut ::std::fmt::Formatter) -> ::std::fmt::Result { <Self as ::std::fmt::Debug>::fmt(self, f) } }\nimpl ::evitable::ErrorKind for ErrorKind {}\n";
    assert_eq!(text, expected);
}

#[test]
fn conversion_text_is_exact() {
    // unit struct with from = std::io::Error
    let mut attr = vec![ident("description"), Token::Eq, lit_str("Io"), Token::Comma];
    attr.push(ident("from"));
    attr.push(Token::Eq);
    attr.push(ident("std"));
    attr.push(Token::PathSep);
    attr.push(ident("io"));
    attr.push(Token::PathSep);
    attr.push(ident("Error"));
    let decl = TypeDecl {
        ident: "Test".to_string(),
        vis: Visibility::Public,
        attrs: vec![evitable_attr(attr)],
        data: DataDecl::Struct(Fields::Unit),
    };
    let ty = ErrorType::from_decl(&decl).expect("model should build");
    let text = emit_from_impls(&ty.impls_from);
    let expected = "impl ::std::convert::From<std::io::Error> for evitable_test::Error {\n    fn from(err: std::io::Error) -> Self {\n        Test.into_error(err)\n    }\n}\n";
    assert_eq!(text, expected);
}

#[test]
fn whole_text_holds_every_artifact() {
    let ty = ErrorType::from_decl(&foo_decl()).expect("model should build");
    let text = emit_error_type(&ty);
    // the module, the discriminant, the classification, the wrapper, the
    // result alias, the formatting impl and the alias items all appear
    assert!(text.starts_with("pub mod evitable_foo {\n"));
    assert!(text.contains("enum ErrorKind {\n    Foo { code: u8, },\n"));
    assert!(text.contains("pub(super) fn from_context(context: &super::Foo) -> Self {\n        ErrorKind::Foo { code: *&context.code, }\n"));
    // the discriminant is trivially duplicable, so classification is inline
    assert!(text.contains("#[inline]\n    pub(super) fn from_context"));
    assert!(text.contains("struct Error {\n        context: super::Foo,\n"));
    assert!(text.contains("type Result<T> = ::std::result::Result<T, Error>;\n}\n"));
    assert!(text.contains("impl ::std::fmt::Display for Foo {\n"));
    assert!(text.contains("write!(f, \"Error {0}\", self.code)"));
    assert!(text.contains("impl ::evitable::ErrorContext for Foo {\n"));
    assert!(text.contains("pub type Error = evitable_foo::Error;\n"));
    assert!(text.contains("pub type Result<T> = evitable_foo::Result<T>;\n"));
    assert!(text.contains("pub type ErrorKind = evitable_foo::ErrorKind;\n"));
}

#[test]
fn enum_classification_text_binds_and_skips_fields() {
    // enum with a mixed variant: one included positional field of two
    let decl = TypeDecl {
        ident: "Test".to_string(),
        vis: Visibility::Public,
        attrs: vec![],
        data: DataDecl::Enum(vec![VariantDecl {
            ident: "Pair".to_string(),
            attrs: vec![evitable_attr(vec![
                ident("description"),
                Token::Eq,
                lit_str("Pair"),
            ])],
            fields: Fields::Unnamed(vec![
                evitable::fields::IndexedField {
                    index: 0,
                    value: FieldDecl { attrs: vec![], ty: "u8".to_string() },
                },
                evitable::fields::IndexedField {
                    index: 1,
                    value: FieldDecl {
                        attrs: vec![evitable_attr(vec![ident("include_in_kind")])],
                        ty: "u16".to_string(),
                    },
                },
            ]),
        }]),
    };
    let ty = ErrorType::from_decl(&decl).expect("model should build");
    let text = emit_error_type(&ty);
    // the pattern binds only the included position; the construction takes it
    assert!(text.contains("super::Test::Pair(_, _1, ) => ErrorKind::Pair(*_1, ),\n"));
    // the discriminant case keeps only the included field's type
    assert!(text.contains("    Pair(u16, ),\n"));
}

#[test]
fn classification_is_not_inline_for_a_clone_discriminant() {
    // one included field with the explicit duplication strategy
    let decl = TypeDecl {
        ident: "Test".to_string(),
        vis: Visibility::Public,
        attrs: vec![evitable_attr(vec![
            ident("description"),
            Token::Eq,
            lit_str("Test"),
        ])],
        data: DataDecl::Struct(Fields::Named(vec![NamedField {
            name: "cloned".to_string(),
            value: FieldDecl {
                attrs: vec![evitable_attr(vec![
                    ident("include_in_kind"),
                    Token::Comma,
                    ident("clone"),
                ])],
                ty: "String".to_string(),
            },
        }])),
    };
    let ty = ErrorType::from_decl(&decl).expect("model should build");
    let text = emit_error_type(&ty);
    assert!(!text.contains("#[inline]"));
    assert!(text.contains("ErrorKind::Test { cloned: ::std::clone::Clone::clone(&context.cloned), }"));
    // the emitted cause keeps the thread-safety bounds
    assert!(text.contains(
        "source: Option<Box<dyn ::std::error::Error + ::std::marker::Send + ::std::marker::Sync + 'static>>,"
    ));
}
