//! Two annotated declarations in one scope build and convert
//! independently.

use evitable::display::DisplayImpl;
use evitable::fields::Fields;
use evitable::meta::{Lit, Meta, Path};
use evitable::model::{ErrorType, TypeDecl, DataDecl};
use evitable::parse::{Attribute, Token};
use evitable::runtime::WrappedError;
use evitable::visibility::Visibility;

struct NotFoundContext;

struct BadRequestContext;

type NotFoundError = WrappedError<NotFoundContext>;

type BadRequestError = WrappedError<BadRequestContext>;

fn described(ident: &str, text: &str) -> TypeDecl {
    let attr = Attribute {
        path: Path { leading_colon: false, segments: vec!["evitable".to_string()] },
        tokens: vec![Token::Group(vec![
            Token::Ident("description".to_string()),
            Token::Eq,
            Token::Literal(Lit::Str(text.to_string())),
        ])],
    };
    let meta: Meta = attr.meta().expect("attribute tokens should parse");
    TypeDecl {
        ident: ident.to_string(),
        vis: Visibility::Public,
        attrs: vec![meta],
        data: DataDecl::Struct(Fields::Unit),
    }
}

#[test]
pub fn test_both() {
    let not_found = ErrorType::from_decl(&described("NotFoundContext", "Not found"))
        .expect("model should build");
    let bad_request = ErrorType::from_decl(&described("BadRequestContext", "Bad request"))
        .expect("model should build");

    let _ = DisplayImpl::for_type(&not_found);
    let _ = DisplayImpl::for_type(&bad_request);

    let _: NotFoundError = WrappedError::from_context(NotFoundContext);
    let _: BadRequestError = WrappedError::from_context(BadRequestContext);
}
