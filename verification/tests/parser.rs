//! The attribute grammar parser on token sequences.

use evitable::meta::{Lit, Meta, MetaValue, NestedMeta, Path};
use evitable::parse::{Attribute, Token};

fn ident(s: &str) -> Token {
    Token::Ident(s.to_string())
}

fn path1(s: &str) -> Path {
    Path { leading_colon: false, segments: vec![s.to_string()] }
}

fn parse(tokens: Vec<Token>) -> Result<Meta, evitable::error::Error> {
    Attribute { path: path1("evitable"), tokens }.meta()
}

#[test]
fn bare_word_parses_as_path() {
    let m = parse(vec![]).unwrap();
    assert!(matches!(m, Meta::Path(_)));
}

#[test]
fn name_value_with_full_path() {
    // evitable = ::std::io::Error
    let m = parse(vec![
        Token::Eq,
        Token::PathSep,
        ident("std"),
        Token::PathSep,
        ident("io"),
        Token::PathSep,
        ident("Error"),
    ])
    .unwrap();
    match m {
        Meta::NameValue(nv) => match nv.val {
            MetaValue::Path(p) => {
                assert!(p.leading_colon);
                assert_eq!(p.segments, vec!["std", "io", "Error"]);
            }
            _ => panic!("expected a path value"),
        },
        _ => panic!("expected a name/value node"),
    }
}

#[test]
fn boolean_lookahead_resolves_the_clash() {
    // a bare boolean literal is a literal item ...
    let m = parse(vec![Token::Group(vec![Token::Literal(Lit::Bool(true))])]).unwrap();
    match &m {
        Meta::List(l) => {
            assert_eq!(l.nested.len(), 1);
            assert!(matches!(l.nested[0], NestedMeta::Lit(Lit::Bool(true))));
        }
        _ => panic!("expected a list node"),
    }

    // ... but one followed by `=` is the name of a name/value item
    let m = parse(vec![Token::Group(vec![
        Token::Literal(Lit::Bool(true)),
        Token::Eq,
        Token::Literal(Lit::Int(5, String::new())),
    ])])
    .unwrap();
    match &m {
        Meta::List(l) => {
            assert_eq!(l.nested.len(), 1);
            match &l.nested[0] {
                NestedMeta::Meta(Meta::NameValue(nv)) => {
                    assert_eq!(nv.path.segments, vec!["true"]);
                    assert!(matches!(nv.val, MetaValue::Lit(Lit::Int(5, _))));
                }
                _ => panic!("expected a name/value item"),
            }
        }
        _ => panic!("expected a list node"),
    }
}

#[test]
fn trailing_comma_is_allowed() {
    let m = parse(vec![Token::Group(vec![ident("a"), Token::Comma, ident("b"), Token::Comma])])
        .unwrap();
    match m {
        Meta::List(l) => assert_eq!(l.nested.len(), 2),
        _ => panic!("expected a list node"),
    }
}

#[test]
fn malformed_sequences_are_rejected() {
    // a value is missing after `=`
    assert!(parse(vec![Token::Eq]).is_err());
    // trailing tokens after the value
    assert!(parse(vec![Token::Eq, ident("x"), ident("y")]).is_err());
    // two items without a separating comma
    assert!(parse(vec![Token::Group(vec![ident("a"), ident("b")])]).is_err());
    // an empty run between commas
    assert!(parse(vec![Token::Group(vec![ident("a"), Token::Comma, Token::Comma, ident("b")])])
        .is_err());
}

#[test]
fn nested_lists_parse_recursively() {
    // evitable(description("x {0}", 0))
    let m = parse(vec![Token::Group(vec![
        ident("description"),
        Token::Group(vec![
            Token::Literal(Lit::Str("x {0}".to_string())),
            Token::Comma,
            Token::Literal(Lit::Int(0, String::new())),
        ]),
    ])])
    .unwrap();
    match &m {
        Meta::List(outer) => match &outer.nested[0] {
            NestedMeta::Meta(Meta::List(inner)) => {
                assert_eq!(inner.path.segments, vec!["description"]);
                assert_eq!(inner.nested.len(), 2);
            }
            _ => panic!("expected a nested list"),
        },
        _ => panic!("expected a list node"),
    }
}
