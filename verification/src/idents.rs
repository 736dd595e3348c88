//! Identifier derivation for the generated module.

use vstd::prelude::*;

verus! {

/// The snake-case rendering of a type-style (PascalCase) identifier, as the
/// outside case-conversion routine computes it.
pub uninterp spec fn snake_of(s: Seq<char>) -> Seq<char>;

/// Relies on ident_case's `RenameRule::SnakeCase.apply_to_variant`: the
/// result depends on the characters of the input alone.
#[verifier::external_body]
fn snake_case(s: &str) -> (r: String)
    ensures
        r@ == snake_of(s@),
{
    ident_case::RenameRule::SnakeCase.apply_to_variant(s)
}

/// The name of the generated module for an annotated type: `evitable_`
/// followed by the type name in snake case.
pub fn module_name_for(ident: &str) -> (r: String)
    ensures
        r@ == "evitable_"@ + snake_of(ident@),
{
    let mut out: String = "evitable_".to_owned();
    let snake = snake_case(ident);
    out.append(snake.as_str());
    out
}

} // verus!
