//! In-memory model of a type declaration as handed over by the host
//! compilation environment: the type's name, its variants with their shapes
//! and attached annotations, and the structured diagnostics that generation
//! can produce.

use vstd::prelude::*;

verus! {

/// One annotation attached to a variant: the attribute's name (its path
/// rendered as text) and the raw token text of its argument list,
/// uninterpreted at this stage.
#[derive(Clone, Debug)]
pub struct Annotation {
    pub tag: String,
    pub argument: String,
}

/// The shape of a variant: no fields, an ordered list of unnamed field types
/// (each kept verbatim as source text), or named fields.
#[derive(Clone, Debug)]
pub enum Shape {
    Unit,
    Tuple { field_types: Vec<String> },
    Named { field_names: Vec<String> },
}

/// One named case of a tagged union, with its shape and its annotations in
/// source order.
#[derive(Clone, Debug)]
pub struct Variant {
    pub name: String,
    pub shape: Shape,
    pub annotations: Vec<Annotation>,
}

/// A tagged-union declaration: the type's name and its variants in
/// declaration order.
#[derive(Clone, Debug)]
pub struct TypeDeclaration {
    pub name: String,
    pub variants: Vec<Variant>,
}

/// The body of a raw declaration as the host hands it over: a tagged union
/// (an enum), a record (a struct), or an untagged union.
#[derive(Clone, Debug)]
pub enum DeclarationBody {
    TaggedUnion { variants: Vec<Variant> },
    Record,
    UntaggedUnion,
}

/// A raw type declaration, not yet checked to be a tagged union.
#[derive(Clone, Debug)]
pub struct InputDeclaration {
    pub name: String,
    pub body: DeclarationBody,
}

/// A structured generation-time diagnostic. Every error aborts the whole
/// generation request; nothing is emitted alongside an error.
#[derive(Clone, Debug, PartialEq, Eq)]
pub enum Error {
    /// The declaration is not a tagged union. `derive_name` is the generation
    /// request during which this was found.
    InputShape { derive_name: String },
    /// An annotation with the recognized tag has an argument that is not the
    /// identifier `ignore`. `argument` is `None` when the argument does not
    /// lex as a single identifier at all, `Some` with the offending text
    /// otherwise; `variant` locates the annotated variant.
    AnnotationArgument { attribute: String, argument: Option<String>, variant: String },
    /// A tuple-shaped variant with zero fields was asked for an extractor and
    /// carries no opt-out annotation; `variant` locates it.
    EmptyVariant { variant: String },
}

/// Mathematical model of an [`Error`], with every text as a `Seq<char>`.
pub enum Diag {
    InputShape { derive_name: Seq<char> },
    AnnotationArgument { attribute: Seq<char>, argument: Option<Seq<char>>, variant: Seq<char> },
    EmptyVariant { variant: Seq<char> },
}

pub open spec fn opt_text_view(o: Option<String>) -> Option<Seq<char>> {
    match o {
        Some(s) => Some(s@),
        None => None,
    }
}

pub open spec fn err_view(e: Error) -> Diag {
    match e {
        Error::InputShape { derive_name } => Diag::InputShape { derive_name: derive_name@ },
        Error::AnnotationArgument { attribute, argument, variant } => Diag::AnnotationArgument {
            attribute: attribute@,
            argument: opt_text_view(argument),
            variant: variant@,
        },
        Error::EmptyVariant { variant } => Diag::EmptyVariant { variant: variant@ },
    }
}

/// The message text that belongs to each diagnostic.
pub open spec fn message_of(d: Diag) -> Seq<char> {
    match d {
        Diag::InputShape { derive_name } => "Cannot derive `"@ + derive_name
            + "` on anything that is not an enum"@,
        Diag::AnnotationArgument { attribute, argument: Some(a), variant } => (
        "Unexpected argument `"@ + a + "` to attribute `"@ + attribute + "`"@),
        Diag::AnnotationArgument { attribute, argument: None, variant } => (
        "Cannot parse arguments to attribute `"@ + attribute + "` as identifier"@),
        Diag::EmptyVariant { variant } => (
        "encountered empty unnamed enum value, please add `#[enum_take(ignore)]` above that variant."@),
    }
}

impl Error {
    /// Renders the diagnostic as the message the host environment surfaces.
    pub fn message(&self) -> (m: String)
        ensures
            m@ == message_of(err_view(*self)),
    {
        match self {
            Error::InputShape { derive_name } => {
                let mut m = String::from_str("Cannot derive `");
                m.append(derive_name.as_str());
                m.append("` on anything that is not an enum");
                m
            },
            Error::AnnotationArgument { attribute, argument: Some(a), .. } => {
                let mut m = String::from_str("Unexpected argument `");
                m.append(a.as_str());
                m.append("` to attribute `");
                m.append(attribute.as_str());
                m.append("`");
                m
            },
            Error::AnnotationArgument { attribute, argument: None, .. } => {
                let mut m = String::from_str("Cannot parse arguments to attribute `");
                m.append(attribute.as_str());
                m.append("` as identifier");
                m
            },
            Error::EmptyVariant { .. } => {
                String::from_str(
                    "encountered empty unnamed enum value, please add `#[enum_take(ignore)]` above that variant.",
                )
            },
        }
    }
}

/// Checks the top-level structure of a raw declaration: only a tagged union
/// is accepted; a record or an untagged union is rejected with an
/// [`Error::InputShape`] diagnostic naming the generation request.
pub fn parse_declaration(input: InputDeclaration, derive_name: &str) -> (r: Result<
    TypeDeclaration,
    Error,
>)
    ensures
        input.body matches DeclarationBody::TaggedUnion { variants } ==> (r matches Ok(d)
            && d.name == input.name && d.variants == variants),
        !(input.body is TaggedUnion) ==> (r matches Err(e) && err_view(e) == (Diag::InputShape {
            derive_name: derive_name@,
        })),
{
    match input.body {
        DeclarationBody::TaggedUnion { variants } => Ok(
            TypeDeclaration { name: input.name, variants },
        ),
        _ => Err(Error::InputShape { derive_name: String::from_str(derive_name) }),
    }
}

} // verus!
