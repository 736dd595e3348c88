//! Formatting annotated declarations: building the model from attribute
//! tokens and rendering instances.

use evitable::display::DisplayImpl;
use evitable::fields::{Fields, IndexedField, NamedField};
use evitable::meta::{Lit, Meta, Path};
use evitable::model::{ErrorType, FieldDecl, TypeDecl, DataDecl, VariantDecl};
use evitable::parse::{Attribute, Token};
use evitable::visibility::Visibility;

fn ident(s: &str) -> Token {
    Token::Ident(s.to_string())
}

fn lit_str(s: &str) -> Token {
    Token::Literal(Lit::Str(s.to_string()))
}

fn lit_int(v: u64) -> Token {
    Token::Literal(Lit::Int(v, String::new()))
}

fn path1(s: &str) -> Path {
    Path { leading_colon: false, segments: vec![s.to_string()] }
}

/// The node of one `evitable(...)` attribute with the given inner tokens.
fn evitable_attr(inner: Vec<Token>) -> Meta {
    let attr = Attribute { path: path1("evitable"), tokens: vec![Token::Group(inner)] };
    attr.meta().expect("attribute tokens should parse")
}

fn binding(name: &str, value: &str) -> NamedField<String> {
    NamedField { name: name.to_string(), value: value.to_string() }
}

#[test]
fn display_test() {
    // struct Test; with description = "Test error"
    let decl = TypeDecl {
        ident: "Test".to_string(),
        vis: Visibility::Inherited,
        attrs: vec![evitable_attr(vec![ident("description"), Token::Eq, lit_str("Test error")])],
        data: DataDecl::Struct(Fields::Unit),
    };
    let ty = ErrorType::from_decl(&decl).expect("model should build");
    let display = DisplayImpl::for_type(&ty);
    let out = display.render(None, &Vec::new()).expect("render should succeed");
    assert_eq!(out, "Test error");
}

#[test]
fn display_test_named() {
    // struct Test { code: u8 } with description("Test error, code={}", code)
    let decl = TypeDecl {
        ident: "Test".to_string(),
        vis: Visibility::Inherited,
        attrs: vec![evitable_attr(vec![
            ident("description"),
            Token::Group(vec![lit_str("Test error, code={}"), Token::Comma, ident("code")]),
        ])],
        data: DataDecl::Struct(Fields::Named(vec![NamedField {
            name: "code".to_string(),
            value: FieldDecl { attrs: vec![], ty: "u8".to_string() },
        }])),
    };
    let ty = ErrorType::from_decl(&decl).expect("model should build");
    let display = DisplayImpl::for_type(&ty);
    let env = vec![binding("self.code", "42")];
    let out = display.render(None, &env).expect("render should succeed");
    assert_eq!(out, "Test error, code=42");
}

#[test]
fn display_test_unnamed() {
    // struct Test(u8); with description("Test({})", 0)
    let decl = TypeDecl {
        ident: "Test".to_string(),
        vis: Visibility::Inherited,
        attrs: vec![evitable_attr(vec![
            ident("description"),
            Token::Group(vec![lit_str("Test({})"), Token::Comma, lit_int(0)]),
        ])],
        data: DataDecl::Struct(Fields::Unnamed(vec![IndexedField {
            index: 0,
            value: FieldDecl { attrs: vec![], ty: "u8".to_string() },
        }])),
    };
    let ty = ErrorType::from_decl(&decl).expect("model should build");
    let display = DisplayImpl::for_type(&ty);
    let env = vec![binding("self.0", "42")];
    let out = display.render(None, &env).expect("render should succeed");
    assert_eq!(out, "Test(42)");
}

#[test]
fn display_test_enum() {
    // enum Test { Io, Fmt { code: u8 }, Utf8(u8) }
    let decl = TypeDecl {
        ident: "Test".to_string(),
        vis: Visibility::Inherited,
        attrs: vec![],
        data: DataDecl::Enum(vec![
            VariantDecl {
                ident: "Io".to_string(),
                attrs: vec![evitable_attr(vec![ident("description"), Token::Eq, lit_str("Io")])],
                fields: Fields::Unit,
            },
            VariantDecl {
                ident: "Fmt".to_string(),
                attrs: vec![evitable_attr(vec![
                    ident("description"),
                    Token::Group(vec![
                        lit_str("Fmt {{ code: {} }}"),
                        Token::Comma,
                        ident("code"),
                    ]),
                ])],
                fields: Fields::Named(vec![NamedField {
                    name: "code".to_string(),
                    value: FieldDecl { attrs: vec![], ty: "u8".to_string() },
                }]),
            },
            VariantDecl {
                ident: "Utf8".to_string(),
                attrs: vec![evitable_attr(vec![
                    ident("description"),
                    Token::Group(vec![lit_str("Utf8({})"), Token::Comma, lit_int(0)]),
                ])],
                fields: Fields::Unnamed(vec![IndexedField {
                    index: 0,
                    value: FieldDecl { attrs: vec![], ty: "u8".to_string() },
                }]),
            },
        ]),
    };
    let ty = ErrorType::from_decl(&decl).expect("model should build");
    let display = DisplayImpl::for_type(&ty);
    assert_eq!(display.render(Some("Io"), &Vec::new()).unwrap(), "Io");
    assert_eq!(
        display.render(Some("Fmt"), &vec![binding("code", "42")]).unwrap(),
        "Fmt { code: 42 }"
    );
    assert_eq!(
        display.render(Some("Utf8"), &vec![binding("_0", "42")]).unwrap(),
        "Utf8(42)"
    );
}
