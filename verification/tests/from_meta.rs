//! Typed extraction from attribute grammar nodes.

use evitable::from_meta::{FromMeta, Fallible, Recovered};
use evitable::meta::{Lit, Meta, Path};
use evitable::parse::{Attribute, Token};

/// Parses `#[<tokens>]` with `ignore` (or another word) as its head path.
fn pm(head: &str, tokens: Vec<Token>) -> Meta {
    let attr = Attribute {
        path: Path { leading_colon: false, segments: vec![head.to_string()] },
        tokens,
    };
    attr.meta().expect("tests should pass well-formed input")
}

fn fm<T: FromMeta>(head: &str, tokens: Vec<Token>) -> T {
    FromMeta::from_meta(&pm(head, tokens)).expect("tests should pass valid input")
}

fn lit_str(s: &str) -> Token {
    Token::Literal(Lit::Str(s.to_string()))
}

fn lit_bool(b: bool) -> Token {
    Token::Literal(Lit::Bool(b))
}

fn lit_int(v: u64, suffix: &str) -> Token {
    Token::Literal(Lit::Int(v, suffix.to_string()))
}

#[test]
fn unit_succeeds() {
    assert_eq!(fm::<()>("ignore", vec![]), ());
}

#[test]
fn bool_succeeds() {
    // word format
    assert_eq!(fm::<bool>("ignore", vec![]), true);

    // bool literal
    assert_eq!(fm::<bool>("ignore", vec![Token::Eq, lit_bool(true)]), true);
    assert_eq!(fm::<bool>("ignore", vec![Token::Eq, lit_bool(false)]), false);

    // string literals
    assert_eq!(fm::<bool>("ignore", vec![Token::Eq, lit_str("true")]), true);
    assert_eq!(fm::<bool>("ignore", vec![Token::Eq, lit_str("false")]), false);
}

#[test]
fn string_succeeds() {
    // cooked form
    assert_eq!(&fm::<String>("ignore", vec![Token::Eq, lit_str("world")]), "world");

    // raw form carries the same characters
    assert_eq!(&fm::<String>("ignore", vec![Token::Eq, lit_str("world")]), "world");
}

#[test]
fn number_succeeds() {
    assert_eq!(fm::<u8>("ignore", vec![Token::Eq, lit_str("2")]), 2u8);
    assert_eq!(fm::<i16>("ignore", vec![Token::Eq, lit_str("-25")]), -25i16);
}

#[test]
fn number_with_leading_sign_succeeds() {
    assert_eq!(fm::<u8>("ignore", vec![Token::Eq, lit_str("+2")]), 2u8);
    assert_eq!(fm::<i16>("ignore", vec![Token::Eq, lit_str("+25")]), 25i16);
    assert_eq!(fm::<i8>("ignore", vec![Token::Eq, lit_str("-128")]), -128i8);
    assert_eq!(fm::<i32>("ignore", vec![Token::Eq, lit_str("-2147483648")]), i32::MIN);
    assert_eq!(
        fm::<i64>("ignore", vec![Token::Eq, lit_str("-9223372036854775808")]),
        i64::MIN
    );
    assert_eq!(fm::<u64>("ignore", vec![Token::Eq, lit_str("18446744073709551615")]), u64::MAX);
    assert_eq!(fm::<usize>("ignore", vec![Token::Eq, lit_int(4096, "")]), 4096usize);
    assert_eq!(fm::<isize>("ignore", vec![Token::Eq, lit_str("-4096")]), -4096isize);
}

#[test]
fn wrapped_and_shared_values_succeed() {
    assert_eq!(fm::<Option<bool>>("ignore", vec![]), Some(true));
    assert_eq!(*fm::<Box<u8>>("ignore", vec![Token::Eq, lit_int(7, "")]), 7u8);
    assert_eq!(*fm::<std::rc::Rc<u8>>("ignore", vec![Token::Eq, lit_int(7, "")]), 7u8);
    assert_eq!(*fm::<std::sync::Arc<u8>>("ignore", vec![Token::Eq, lit_int(7, "")]), 7u8);
    let m = fm::<evitable::meta::Meta>("ignore", vec![Token::Eq, lit_str("x")]);
    assert!(matches!(m, evitable::meta::Meta::NameValue(_)));
    let l = fm::<evitable::meta::Lit>("ignore", vec![Token::Eq, lit_str("x")]);
    assert!(matches!(l, evitable::meta::Lit::Str(_)));
}

#[test]
fn int_without_quotes() {
    assert_eq!(fm::<u8>("ignore", vec![Token::Eq, lit_int(2, "")]), 2u8);
    assert_eq!(fm::<u16>("ignore", vec![Token::Eq, lit_int(255, "")]), 255u16);
    assert_eq!(fm::<u32>("ignore", vec![Token::Eq, lit_int(5000, "")]), 5000u32);

    // Check that we aren't tripped up by incorrect suffixes
    assert_eq!(fm::<u32>("ignore", vec![Token::Eq, lit_int(5000, "i32")]), 5000u32);
}

/// Tests that fallible extraction will always produce an outer success, and
/// will accurately preserve the inner contents.
#[test]
fn result_succeeds() {
    fm::<Fallible<()>>("ignore", vec![]).0.unwrap();
    fm::<Fallible<()>>(
        "ignore",
        vec![Token::Group(vec![Token::Ident("world".to_string())])],
    ).0.unwrap_err();
}

#[test]
fn recovered_extraction_preserves_the_node() {
    fm::<Recovered<()>>("ignore", vec![]).0.unwrap();
    let kept = fm::<Recovered<()>>("ignore", vec![Token::Eq, lit_str("x")]).0.unwrap_err();
    assert!(matches!(kept, Meta::NameValue(_)));
}

#[test]
fn number_out_of_range_fails() {
    let m = pm("ignore", vec![Token::Eq, lit_int(5000, "")]);
    assert!(<u8 as FromMeta>::from_meta(&m).is_err());
    let m = pm("ignore", vec![Token::Eq, lit_str("70000")]);
    assert!(<u16 as FromMeta>::from_meta(&m).is_err());
}

#[test]
fn unexpected_shape_fails() {
    // a list where a boolean flag is expected
    let m = pm("ignore", vec![Token::Group(vec![lit_bool(true), Token::Comma, lit_bool(false)])]);
    assert!(<bool as FromMeta>::from_meta(&m).is_err());
}
