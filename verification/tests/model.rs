//! Whole-model scenarios and the diagnostics of bad declarations.

use evitable::display::DisplayImpl;
use evitable::error::Error;
use evitable::fields::{Fields, NamedField};
use evitable::from_context::from_context;
use evitable::kinds;
use evitable::meta::{Lit, Meta, Path};
use evitable::model::{ErrorType, ErrorData, FieldDecl, TypeDecl, DataDecl, TypeAliasName};
use evitable::parse::{Attribute, Token};
use evitable::visibility::Visibility;

fn ident(s: &str) -> Token {
    Token::Ident(s.to_string())
}

fn lit_str(s: &str) -> Token {
    Token::Literal(Lit::Str(s.to_string()))
}

fn lit_int(v: u64) -> Token {
    Token::Literal(Lit::Int(v, String::new()))
}

fn evitable_attr(inner: Vec<Token>) -> Meta {
    let attr = Attribute {
        path: Path { leading_colon: false, segments: vec!["evitable".to_string()] },
        tokens: vec![Token::Group(inner)],
    };
    attr.meta().expect("attribute tokens should parse")
}

/// struct Foo { code: u8 } with description("Error {0}", code), the field
/// optionally included in the discriminant.
fn foo_decl(included: bool) -> TypeDecl {
    let field_attrs = if included {
        vec![evitable_attr(vec![ident("include_in_kind")])]
    } else {
        vec![]
    };
    TypeDecl {
        ident: "Foo".to_string(),
        vis: Visibility::Public,
        attrs: vec![evitable_attr(vec![
            ident("description"),
            Token::Group(vec![lit_str("Error {0}"), Token::Comma, ident("code")]),
        ])],
        data: DataDecl::Struct(Fields::Named(vec![NamedField {
            name: "code".to_string(),
            value: FieldDecl { attrs: field_attrs, ty: "u8".to_string() },
        }])),
    }
}

#[test]
fn foo_formats_and_classifies() {
    let ty = ErrorType::from_decl(&foo_decl(true)).expect("model should build");
    let artifact = DisplayImpl::for_type(&ty);
    let env = vec![NamedField { name: "self.code".to_string(), value: "42".to_string() }];
    assert_eq!(artifact.render(None, &env).unwrap(), "Error 42");

    // included: the discriminant carries the single code field
    let ks = kinds::for_type(&ty);
    assert!(ks.is_copy());
    let instance = Fields::Named(vec![NamedField {
        name: "code".to_string(),
        value: "42".to_string(),
    }]);
    let kv = from_context(&ks, None, &instance).unwrap();
    assert_eq!(kv.case, "Foo");
    match kv.values {
        Fields::Named(vs) => {
            assert_eq!(vs.len(), 1);
            assert_eq!(vs[0].name, "code");
            assert_eq!(vs[0].value, "42");
        },
        _ => panic!("expected named kind values"),
    }
}

#[test]
fn foo_without_inclusion_has_empty_kind() {
    let ty = ErrorType::from_decl(&foo_decl(false)).expect("model should build");
    let ks = kinds::for_type(&ty);
    let instance = Fields::Named(vec![NamedField {
        name: "code".to_string(),
        value: "42".to_string(),
    }]);
    let kv = from_context(&ks, None, &instance).unwrap();
    match kv.values {
        Fields::Named(vs) => assert_eq!(vs.len(), 0),
        _ => panic!("expected named kind values"),
    }
}

#[test]
fn conversion_on_field_bearing_shape_is_rejected() {
    // from = std::io::Error on a struct with one field
    let mut attr = vec![ident("description"), Token::Eq, lit_str("Err"), Token::Comma];
    attr.push(ident("from"));
    attr.push(Token::Eq);
    attr.push(ident("std"));
    attr.push(Token::PathSep);
    attr.push(ident("io"));
    attr.push(Token::PathSep);
    attr.push(ident("Error"));
    let decl = TypeDecl {
        ident: "Test".to_string(),
        vis: Visibility::Public,
        attrs: vec![evitable_attr(attr)],
        data: DataDecl::Struct(Fields::Named(vec![NamedField {
            name: "code".to_string(),
            value: FieldDecl { attrs: vec![], ty: "u8".to_string() },
        }])),
    };
    match ErrorType::from_decl(&decl) {
        Err(Error::UnsupportedShape(_)) => {},
        other => panic!("expected an unsupported-shape failure, got {:?}", other.is_ok()),
    }
}

#[test]
fn conversion_on_fieldless_shapes_succeeds() {
    for data in [
        DataDecl::Struct(Fields::Unit),
        DataDecl::Struct(Fields::Named(vec![])),
        DataDecl::Struct(Fields::Unnamed(vec![])),
    ] {
        let mut attr = vec![ident("description"), Token::Eq, lit_str("Err"), Token::Comma];
        attr.push(ident("from"));
        attr.push(Token::Eq);
        attr.push(ident("IoError"));
        let decl = TypeDecl {
            ident: "Test".to_string(),
            vis: Visibility::Public,
            attrs: vec![evitable_attr(attr)],
            data,
        };
        let ty = ErrorType::from_decl(&decl).expect("fieldless shapes accept conversions");
        assert_eq!(ty.impls_from.len(), 1);
    }
}

#[test]
fn unresolved_reference_is_rejected() {
    // description("Error {0}", missing) on a struct whose field is `code`
    let decl = TypeDecl {
        ident: "Foo".to_string(),
        vis: Visibility::Public,
        attrs: vec![evitable_attr(vec![
            ident("description"),
            Token::Group(vec![lit_str("Error {0}"), Token::Comma, ident("missing")]),
        ])],
        data: DataDecl::Struct(Fields::Named(vec![NamedField {
            name: "code".to_string(),
            value: FieldDecl { attrs: vec![], ty: "u8".to_string() },
        }])),
    };
    match ErrorType::from_decl(&decl) {
        Err(Error::UnknownField(name)) => assert_eq!(name, "missing"),
        other => panic!("expected an unknown-field failure, got {:?}", other.is_ok()),
    }

    // a positional reference against a named shape names its digits
    let decl = TypeDecl {
        ident: "Foo".to_string(),
        vis: Visibility::Public,
        attrs: vec![evitable_attr(vec![
            ident("description"),
            Token::Group(vec![lit_str("Error {0}"), Token::Comma, lit_int(7)]),
        ])],
        data: DataDecl::Struct(Fields::Named(vec![NamedField {
            name: "code".to_string(),
            value: FieldDecl { attrs: vec![], ty: "u8".to_string() },
        }])),
    };
    match ErrorType::from_decl(&decl) {
        Err(Error::UnknownField(name)) => assert_eq!(name, "7"),
        other => panic!("expected an unknown-field failure, got {:?}", other.is_ok()),
    }

    // a multi-digit position renders all its digits
    let decl = TypeDecl {
        ident: "Foo".to_string(),
        vis: Visibility::Public,
        attrs: vec![evitable_attr(vec![
            ident("description"),
            Token::Group(vec![lit_str("Error {0}"), Token::Comma, lit_int(42)]),
        ])],
        data: DataDecl::Struct(Fields::Unnamed(vec![])),
    };
    match ErrorType::from_decl(&decl) {
        Err(Error::UnknownField(name)) => assert_eq!(name, "42"),
        other => panic!("expected an unknown-field failure, got {:?}", other.is_ok()),
    }
}

#[test]
fn unit_shape_rejects_every_reference() {
    let decl = TypeDecl {
        ident: "Foo".to_string(),
        vis: Visibility::Public,
        attrs: vec![evitable_attr(vec![
            ident("description"),
            Token::Group(vec![lit_str("Error {0}"), Token::Comma, ident("code")]),
        ])],
        data: DataDecl::Struct(Fields::Unit),
    };
    assert!(matches!(ErrorType::from_decl(&decl), Err(Error::UnknownField(_))));
}

#[test]
fn unknown_attribute_is_rejected() {
    let decl = TypeDecl {
        ident: "Foo".to_string(),
        vis: Visibility::Public,
        attrs: vec![evitable_attr(vec![
            ident("description"),
            Token::Eq,
            lit_str("Err"),
            Token::Comma,
            ident("shiny"),
        ])],
        data: DataDecl::Struct(Fields::Unit),
    };
    match ErrorType::from_decl(&decl) {
        Err(Error::UnknownField(name)) => assert_eq!(name, "shiny"),
        other => panic!("expected an unknown-field failure, got {:?}", other.is_ok()),
    }
}

#[test]
fn missing_description_is_rejected() {
    let decl = TypeDecl {
        ident: "Foo".to_string(),
        vis: Visibility::Public,
        attrs: vec![],
        data: DataDecl::Struct(Fields::Unit),
    };
    match ErrorType::from_decl(&decl) {
        Err(Error::MissingField(name)) => assert_eq!(name, "description"),
        other => panic!("expected a missing-field failure, got {:?}", other.is_ok()),
    }
}

#[test]
fn union_is_rejected() {
    let decl = TypeDecl {
        ident: "Foo".to_string(),
        vis: Visibility::Public,
        attrs: vec![],
        data: DataDecl::Union,
    };
    assert!(matches!(ErrorType::from_decl(&decl), Err(Error::UnsupportedShape(_))));
}

#[test]
fn module_name_and_aliases() {
    let decl = TypeDecl {
        ident: "NotFoundContext".to_string(),
        vis: Visibility::Public,
        attrs: vec![evitable_attr(vec![
            ident("description"),
            Token::Eq,
            lit_str("Not found"),
            Token::Comma,
            ident("error_type"),
            Token::Eq,
            lit_str("NotFoundError"),
            Token::Comma,
            ident("result_type"),
            Token::Eq,
            Token::Literal(Lit::Bool(false)),
        ])],
        data: DataDecl::Struct(Fields::Unit),
    };
    let ty = ErrorType::from_decl(&decl).expect("model should build");
    assert_eq!(ty.mod_name, "evitable_not_found_context");
    assert_eq!(
        ty.attrs.error_type_name.ident("Error"),
        Some("NotFoundError".to_string())
    );
    assert_eq!(ty.attrs.result_type_name.ident("Result"), None);
    assert_eq!(ty.attrs.kind_type_name.ident("ErrorKind"), Some("ErrorKind".to_string()));
    assert!(matches!(ty.attrs.kind_type_name, TypeAliasName::Default));
    match &ty.data {
        ErrorData::Struct(s) => assert_eq!(s.description.format, "Not found"),
        _ => panic!("expected a struct"),
    }
}

#[test]
fn malformed_attribute_tokens_are_skipped() {
    // an attribute whose tokens do not match the grammar is ignored, so the
    // description is missing
    let bad = Attribute {
        path: Path { leading_colon: false, segments: vec!["evitable".to_string()] },
        tokens: vec![Token::Eq],
    };
    assert!(bad.meta().is_err());
    let decl = TypeDecl {
        ident: "Foo".to_string(),
        vis: Visibility::Public,
        attrs: vec![],
        data: DataDecl::Struct(Fields::Unit),
    };
    assert!(matches!(ErrorType::from_decl(&decl), Err(Error::MissingField(_))));
}

#[test]
fn compact_path_rendering() {
    let p = Path {
        leading_colon: true,
        segments: vec!["std".to_string(), "io".to_string(), "Error".to_string()],
    };
    assert_eq!(p.to_compact_string(), "std::io::Error");
}
