#![allow(dead_code)]

use derivenum::{
    enum_match, take_enum, Annotation, DeclarationBody, Error, InputDeclaration, Shape, Variant,
};

fn variant(name: &str, shape: Shape) -> Variant {
    Variant { name: String::from(name), shape, annotations: Vec::new() }
}

fn annotated_variant(name: &str, shape: Shape, tag: &str, argument: &str) -> Variant {
    Variant {
        name: String::from(name),
        shape,
        annotations: vec![
            Annotation { tag: String::from(tag), argument: String::from(argument) },
        ],
    }
}

fn tuple(field_types: &[&str]) -> Shape {
    Shape::Tuple { field_types: field_types.iter().map(|t| String::from(*t)).collect() }
}

fn named(field_names: &[&str]) -> Shape {
    Shape::Named { field_names: field_names.iter().map(|n| String::from(*n)).collect() }
}

fn union_decl(name: &str, variants: Vec<Variant>) -> InputDeclaration {
    InputDeclaration { name: String::from(name), body: DeclarationBody::TaggedUnion { variants } }
}

fn enum_fields_decl() -> InputDeclaration {
    union_decl(
        "EnumFields",
        vec![
            variant("Unnamed", tuple(&["String"])),
            variant("Named", named(&["name1", "name2"])),
            variant("Unit", Shape::Unit),
        ],
    )
}

fn takeable_decl() -> InputDeclaration {
    union_decl(
        "Takeable",
        vec![
            variant("SingleUnnamed", tuple(&["String"])),
            variant("MultiUnnamed", tuple(&["u32", "u32", "u32"])),
            variant("SingleNamed", named(&["name"])),
            variant("MultiNamed", named(&["field", "field2"])),
            variant("Unit", Shape::Unit),
        ],
    )
}

// The enum of the generation scenarios below, with the generated extension
// blocks written out by hand, exactly as `enum_match` / `take_enum` emit them
// for `enum_fields_decl()` and `takeable_decl()` (the text-equality tests pin
// the emitted text to the same content).
enum EnumFields {
    Unnamed(String),
    Named { name1: u32, name2: String },
    Unit,
}

impl EnumFields {
    /// Returns [`true`] if [`EnumFields`] has value of [`Unnamed`](EnumFields::Unnamed).
    pub fn is_unnamed(&self) -> bool {
        matches!(self, EnumFields::Unnamed(_))
    }
    /// Returns [`true`] if [`EnumFields`] has value of [`Named`](EnumFields::Named).
    pub fn is_named(&self) -> bool {
        matches!(self, EnumFields::Named { .. })
    }
    /// Returns [`true`] if [`EnumFields`] has value of [`Unit`](EnumFields::Unit).
    pub fn is_unit(&self) -> bool {
        matches!(self, EnumFields::Unit)
    }
}

enum Takeable {
    SingleUnnamed(String),
    MultiUnnamed(u32, u32, u32),
    SingleNamed { name: String },
    MultiNamed { field: u32, field2: i32 },
    Unit,
}

impl Takeable {
    /// Takes value out of enum value [`SingleUnnamed`](Takeable::SingleUnnamed).
    ///
    /// # Panics
    ///
    /// This function panics if the wrong value if encountered.
    pub fn take_single_unnamed(self) -> String {
        if let Takeable::SingleUnnamed(single_unnamed) = self {
            return single_unnamed;
        } else {
            panic!("Tried to take value out of Takeable, but value was not SingleUnnamed");
        }
    }
    /// Takes values out of enum value [`MultiUnnamed`](Takeable::MultiUnnamed) as tuple.
    ///
    /// # Panics
    ///
    /// This function panics if the wrong value if encountered.
    pub fn take_multi_unnamed(self) -> (u32, u32, u32) {
        if let Takeable::MultiUnnamed(field_0, field_1, field_2) = self {
            return (field_0, field_1, field_2);
        } else {
            panic!("Tried to take values out of Takeable as tuple, but value was not MultiUnnamed");
        }
    }
}

#[test]
pub fn unnamed_fields() {
    let unnamed = EnumFields::Unnamed(String::new());
    assert!(unnamed.is_unnamed());
    assert!(!unnamed.is_named());
    assert!(!unnamed.is_unit());
}

#[test]
pub fn named_fields() {
    let named = EnumFields::Named { name1: 1, name2: String::from("2") };
    assert!(named.is_named());
    assert!(!named.is_unnamed());
    assert!(!named.is_unit());
}

#[test]
pub fn unit_fields() {
    let unit = EnumFields::Unit;
    assert!(unit.is_unit());
    assert!(!unit.is_named());
    assert!(!unit.is_unnamed());
}

#[test]
pub fn take_values() {
    let takeable = Takeable::SingleUnnamed(String::new());
    assert_eq!(takeable.take_single_unnamed(), String::new());
    let takeable = Takeable::MultiUnnamed(1, 2, 3);
    assert_eq!(takeable.take_multi_unnamed(), (1, 2, 3));
}

#[test]
fn match_text_enum_fields() {
    let generated = enum_match(enum_fields_decl()).unwrap();
    let expected = "impl EnumFields {\n    /// Returns [`true`] if [`EnumFields`] has value of [`Unnamed`](EnumFields::Unnamed).\n    pub fn is_unnamed(&self) -> bool {\n        matches!(self, EnumFields::Unnamed(_))\n    }\n    /// Returns [`true`] if [`EnumFields`] has value of [`Named`](EnumFields::Named).\n    pub fn is_named(&self) -> bool {\n        matches!(self, EnumFields::Named { .. })\n    }\n    /// Returns [`true`] if [`EnumFields`] has value of [`Unit`](EnumFields::Unit).\n    pub fn is_unit(&self) -> bool {\n        matches!(self, EnumFields::Unit)\n    }\n}\n";
    assert_eq!(generated, expected);
}

#[test]
fn take_text_takeable() {
    let generated = take_enum(takeable_decl()).unwrap();
    let expected = "impl Takeable {\n    /// Takes value out of enum value [`SingleUnnamed`](Takeable::SingleUnnamed).\n    ///\n    /// # Panics\n    ///\n    /// This function panics if the wrong value if encountered.\n    pub fn take_single_unnamed(self) -> String {\n        if let Takeable::SingleUnnamed(single_unnamed) = self {\n            return single_unnamed;\n        } else {\n            panic!(\"Tried to take value out of Takeable, but value was not SingleUnnamed\");\n        }\n    }\n    /// Takes values out of enum value [`MultiUnnamed`](Takeable::MultiUnnamed) as tuple.\n    ///\n    /// # Panics\n    ///\n    /// This function panics if the wrong value if encountered.\n    pub fn take_multi_unnamed(self) -> (u32, u32, u32) {\n        if let Takeable::MultiUnnamed(field_0, field_1, field_2) = self {\n            return (field_0, field_1, field_2);\n        } else {\n            panic!(\"Tried to take values out of Takeable as tuple, but value was not MultiUnnamed\");\n        }\n    }\n}\n";
    assert_eq!(generated, expected);
}

#[test]
fn shape_scenario() {
    let decl = union_decl(
        "Shape",
        vec![
            variant("Circle", tuple(&["f64"])),
            variant("Rectangle", tuple(&["f64", "f64"])),
            variant("Origin", Shape::Unit),
        ],
    );
    let predicates = enum_match(decl).unwrap();
    assert!(predicates.contains("pub fn is_circle(&self) -> bool"));
    assert!(predicates.contains("pub fn is_rectangle(&self) -> bool"));
    assert!(predicates.contains("pub fn is_origin(&self) -> bool"));
    let decl = union_decl(
        "Shape",
        vec![
            variant("Circle", tuple(&["f64"])),
            variant("Rectangle", tuple(&["f64", "f64"])),
            variant("Origin", Shape::Unit),
        ],
    );
    let extractors = take_enum(decl).unwrap();
    assert!(extractors.contains("pub fn take_circle(self) -> f64 {"));
    assert!(extractors.contains("pub fn take_rectangle(self) -> (f64, f64) {"));
    assert!(!extractors.contains("take_origin"));
}

#[test]
fn empty_tuple_variant_fails() {
    let decl = union_decl("Event", vec![variant("Tick", tuple(&[]))]);
    let err = take_enum(decl).unwrap_err();
    assert_eq!(err, Error::EmptyVariant { variant: String::from("Tick") });
    assert_eq!(
        err.message(),
        "encountered empty unnamed enum value, please add `#[enum_take(ignore)]` above that variant."
    );
}

#[test]
fn empty_tuple_variant_opted_out() {
    let decl = union_decl(
        "Event",
        vec![annotated_variant("Tick", tuple(&[]), "enum_take", "ignore")],
    );
    let generated = take_enum(decl).unwrap();
    assert_eq!(generated, "impl Event {\n}\n");
}

#[test]
fn unexpected_annotation_argument_fails() {
    let decl = union_decl(
        "Event",
        vec![annotated_variant("Tick", Shape::Unit, "enum_match", "skip")],
    );
    let err = enum_match(decl).unwrap_err();
    assert_eq!(
        err,
        Error::AnnotationArgument {
            attribute: String::from("enum_match"),
            argument: Some(String::from("skip")),
            variant: String::from("Tick"),
        }
    );
    assert_eq!(err.message(), "Unexpected argument `skip` to attribute `enum_match`");
}

#[test]
fn unparseable_annotation_argument_fails() {
    let decl = union_decl(
        "Event",
        vec![annotated_variant("Tick", Shape::Unit, "enum_take", "a, b")],
    );
    let err = take_enum(decl).unwrap_err();
    assert_eq!(
        err,
        Error::AnnotationArgument {
            attribute: String::from("enum_take"),
            argument: None,
            variant: String::from("Tick"),
        }
    );
    assert_eq!(err.message(), "Cannot parse arguments to attribute `enum_take` as identifier");
}

#[test]
fn not_a_tagged_union_fails() {
    let decl = InputDeclaration { name: String::from("Point"), body: DeclarationBody::Record };
    let err = enum_match(decl).unwrap_err();
    assert_eq!(err, Error::InputShape { derive_name: String::from("EnumMatch") });
    assert_eq!(err.message(), "Cannot derive `EnumMatch` on anything that is not an enum");
    let decl = InputDeclaration {
        name: String::from("Point"),
        body: DeclarationBody::UntaggedUnion,
    };
    let err = take_enum(decl).unwrap_err();
    assert_eq!(err, Error::InputShape { derive_name: String::from("EnumTake") });
}

#[test]
fn ignore_covers_one_variant_only() {
    let decl = union_decl(
        "Event",
        vec![
            annotated_variant("Skipped", tuple(&["u32"]), "enum_match", "ignore"),
            variant("Kept", Shape::Unit),
        ],
    );
    let generated = enum_match(decl).unwrap();
    assert!(!generated.contains("is_skipped"));
    assert!(generated.contains("pub fn is_kept(&self) -> bool"));
}

#[test]
fn unrelated_annotations_are_ignored() {
    let decl = union_decl(
        "Event",
        vec![annotated_variant("Tick", Shape::Unit, "serde", "whatever")],
    );
    let generated = enum_match(decl).unwrap();
    assert!(generated.contains("pub fn is_tick(&self) -> bool"));
    // The other generator's tag does not gate this one.
    let decl = union_decl(
        "Event",
        vec![annotated_variant("Tock", tuple(&["u8"]), "enum_match", "ignore")],
    );
    let generated = take_enum(decl).unwrap();
    assert!(generated.contains("pub fn take_tock(self) -> u8 {"));
}

// The generated extractor of `Pair`, written out by hand: the tuple keeps the
// fields in declared order.
enum Pair {
    Two(u32, String),
}

impl Pair {
    /// Takes values out of enum value [`Two`](Pair::Two) as tuple.
    ///
    /// # Panics
    ///
    /// This function panics if the wrong value if encountered.
    pub fn take_two(self) -> (u32, String) {
        if let Pair::Two(field_0, field_1) = self {
            return (field_0, field_1);
        } else {
            panic!("Tried to take values out of Pair as tuple, but value was not Two");
        }
    }
}

#[test]
fn tuple_order_is_declaration_order() {
    let decl = union_decl("Pair", vec![variant("Two", tuple(&["u32", "String"]))]);
    let generated = take_enum(decl).unwrap();
    assert!(generated.contains("pub fn take_two(self) -> (u32, String) {"));
    assert!(generated.contains("if let Pair::Two(field_0, field_1) = self {"));
    assert!(generated.contains("return (field_0, field_1);"));
    let pair = Pair::Two(7, String::from("x"));
    assert_eq!(pair.take_two(), (7, String::from("x")));
}

#[test]
fn lone_underscore_argument_fails() {
    let decl = union_decl(
        "Event",
        vec![annotated_variant("Tick", Shape::Unit, "enum_match", "_")],
    );
    let err = enum_match(decl).unwrap_err();
    assert_eq!(
        err,
        Error::AnnotationArgument {
            attribute: String::from("enum_match"),
            argument: None,
            variant: String::from("Tick"),
        }
    );
}

#[test]
fn union_without_variants_yields_empty_block() {
    let decl = union_decl("Never", Vec::new());
    assert_eq!(enum_match(decl).unwrap(), "impl Never {\n}\n");
    let decl = union_decl("Never", Vec::new());
    assert_eq!(take_enum(decl).unwrap(), "impl Never {\n}\n");
}

#[test]
fn all_variants_opted_out_yields_empty_block() {
    let decl = union_decl(
        "Event",
        vec![
            annotated_variant("Tick", Shape::Unit, "enum_match", "ignore"),
            annotated_variant("Tock", tuple(&["u8"]), "enum_match", "ignore"),
        ],
    );
    assert_eq!(enum_match(decl).unwrap(), "impl Event {\n}\n");
}
