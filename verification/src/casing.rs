//! Name casing. The conversions themselves are the `heck` crate's; the
//! library only names their results.

use heck::ToPascalCase;
use heck::ToSnakeCase;
use vstd::prelude::*;

verus! {

/// The Pascal-case form that `heck` gives a name.
pub uninterp spec fn pascal_case(name: Seq<char>) -> Seq<char>;

/// The snake-case form that `heck` gives a name.
pub uninterp spec fn snake_case(name: Seq<char>) -> Seq<char>;

/// Calls `heck::ToPascalCase::to_pascal_case` on `name`. Trusted: the
/// result is a function of the characters of `name` alone, and
/// `pascal_case` is the name of that function. Nothing else is claimed of
/// it.
#[verifier::external_body]
pub(crate) fn to_pascal_case(name: &str) -> (r: String)
    ensures
        r@ == pascal_case(name@),
{
    name.to_pascal_case()
}

/// Calls `heck::ToSnakeCase::to_snake_case` on `name`. Trusted: the result
/// is a function of the characters of `name` alone, and `snake_case` is
/// the name of that function. Nothing else is claimed of it.
#[verifier::external_body]
pub(crate) fn to_snake_case(name: &str) -> (r: String)
    ensures
        r@ == snake_case(name@),
{
    name.to_snake_case()
}

} // verus!
