//! Generation of per-variant boilerplate member functions for tagged-union
//! (enum) type declarations: boolean predicates (`is_*`) for every variant
//! and payload extractors (`take_*`) for tuple-shaped variants, emitted as
//! the source text of one extension block per generation request.

pub mod annotations;
pub mod emit;
pub mod enum_match;
pub mod enum_take;
pub mod model;
pub mod naming;
pub mod text;

use vstd::prelude::*;

pub use crate::enum_match::EnumMatch;
pub use crate::enum_take::EnumTake;
pub use crate::model::{
    Annotation, DeclarationBody, Error, InputDeclaration, Shape, TypeDeclaration, Variant,
};

use crate::enum_match::{match_diag, match_output};
use crate::enum_take::{take_diag, take_output};
use crate::model::{err_view, Diag};

verus! {

/// The predicate-generation request: adds one boolean-test function
/// `is_<snake name>` per retained variant of the tagged union, whatever its
/// shape, in one extension block scoped to the type's name.
pub fn enum_match(input: InputDeclaration) -> (r: Result<String, Error>)
    ensures
        !(input.body is TaggedUnion) ==> (r matches Err(e) && err_view(e) == (Diag::InputShape {
            derive_name: "EnumMatch"@,
        })),
        input.body matches DeclarationBody::TaggedUnion { variants } ==> {
            &&& r is Ok <==> match_diag(variants@) is None
            &&& (r matches Ok(text) ==> text@ == match_output(variants@, input.name@))
            &&& (r matches Err(e) ==> match_diag(variants@) == Some(err_view(e)))
        },
{
    match EnumMatch::parse(input) {
        Ok(m) => Ok(m.0),
        Err(e) => Err(e),
    }
}

/// The extractor-generation request: adds one ownership-consuming function
/// `take_<snake name>` per retained tuple-shaped variant of the tagged union,
/// in one extension block scoped to the type's name. Unit- and named-field
/// variants are skipped; a retained zero-field tuple variant is a fatal
/// diagnostic.
pub fn take_enum(input: InputDeclaration) -> (r: Result<String, Error>)
    ensures
        !(input.body is TaggedUnion) ==> (r matches Err(e) && err_view(e) == (Diag::InputShape {
            derive_name: "EnumTake"@,
        })),
        input.body matches DeclarationBody::TaggedUnion { variants } ==> {
            &&& r is Ok <==> take_diag(variants@) is None
            &&& (r matches Ok(text) ==> text@ == take_output(variants@, input.name@))
            &&& (r matches Err(e) ==> take_diag(variants@) == Some(err_view(e)))
        },
{
    match EnumTake::parse(input) {
        Ok(m) => Ok(m.0),
        Err(e) => Err(e),
    }
}

} // verus!
