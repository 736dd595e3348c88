//! Included fields with an explicit duplication strategy.

use evitable::display::DisplayImpl;
use evitable::fields::{Fields, NamedField};
use evitable::from_context::from_context;
use evitable::kinds;
use evitable::meta::{Lit, Meta, Path};
use evitable::model::{ErrorType, ErrorData, FieldDecl, TypeDecl, DataDecl};
use evitable::parse::{Attribute, Token};
use evitable::visibility::Visibility;

fn ident(s: &str) -> Token {
    Token::Ident(s.to_string())
}

fn lit_str(s: &str) -> Token {
    Token::Literal(Lit::Str(s.to_string()))
}

fn evitable_attr(inner: Vec<Token>) -> Meta {
    let attr = Attribute {
        path: Path { leading_colon: false, segments: vec!["evitable".to_string()] },
        tokens: vec![Token::Group(inner)],
    };
    attr.meta().expect("attribute tokens should parse")
}

/// struct Test { #[evitable(include_in_kind, clone)] cloned: IncrementWhenCloned }
/// with description("Some test: {}", cloned)
fn cloned_decl() -> TypeDecl {
    TypeDecl {
        ident: "Test".to_string(),
        vis: Visibility::Inherited,
        attrs: vec![evitable_attr(vec![
            ident("description"),
            Token::Group(vec![lit_str("Some test: {}"), Token::Comma, ident("cloned")]),
        ])],
        data: DataDecl::Struct(Fields::Named(vec![NamedField {
            name: "cloned".to_string(),
            value: FieldDecl {
                attrs: vec![evitable_attr(vec![
                    ident("include_in_kind"),
                    Token::Comma,
                    ident("clone"),
                ])],
                ty: "IncrementWhenCloned".to_string(),
            },
        }])),
    }
}

#[test]
pub fn display() {
    let ty = ErrorType::from_decl(&cloned_decl()).expect("model should build");
    let artifact = DisplayImpl::for_type(&ty);
    let env = vec![NamedField { name: "self.cloned".to_string(), value: "0".to_string() }];
    let display_str = artifact.render(None, &env).expect("render should succeed");
    assert_eq!("Some test: 0", display_str);
}

#[test]
pub fn clone_flag_breaks_copy_marker() {
    let ty = ErrorType::from_decl(&cloned_decl()).expect("model should build");
    let ks = kinds::for_type(&ty);
    // the single included field uses the explicit duplication strategy
    assert!(!ks.is_copy());
    match &ty.data {
        ErrorData::Struct(s) => match &s.fields {
            Fields::Named(fs) => {
                assert_eq!(fs.len(), 1);
                assert!(fs[0].value.include_in_kind);
                assert!(!fs[0].value.is_copy());
            },
            _ => panic!("expected named fields"),
        },
        _ => panic!("expected a struct"),
    }
}

#[test]
pub fn kind_value_carries_included_field() {
    let ty = ErrorType::from_decl(&cloned_decl()).expect("model should build");
    let ks = kinds::for_type(&ty);
    let instance = Fields::Named(vec![NamedField {
        name: "cloned".to_string(),
        value: "0".to_string(),
    }]);
    let kv = from_context(&ks, None, &instance).expect("classification should succeed");
    assert_eq!(kv.case, "Test");
    match kv.values {
        Fields::Named(vs) => {
            assert_eq!(vs.len(), 1);
            assert_eq!(vs[0].name, "cloned");
            assert_eq!(vs[0].value, "0");
        },
        _ => panic!("expected named kind values"),
    }
}
