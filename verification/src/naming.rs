//! The naming transform: a variant's declared name is converted to its lower
//! snake-case form, from which the generated function names (`is_*`,
//! `take_*`) are built.

use vstd::prelude::*;

verus! {

/// The lower snake-case form of an identifier, as `convert_case` computes it.
pub uninterp spec fn snake_of(s: Seq<char>) -> Seq<char>;

/// Relies on `convert_case`'s `Casing::to_case` with `Case::Snake`: a pure,
/// deterministic word-segmenting conversion of an identifier to lower
/// snake-case text, a function of the input characters alone.
#[verifier::external_body]
pub(crate) fn to_snake(s: &str) -> (r: String)
    ensures
        r@ == snake_of(s@),
{
    convert_case::Casing::to_case(&s, convert_case::Case::Snake)
}

} // verus!
