//! The extractor generator: one ownership-consuming function
//! `take_<snake name>` per retained tuple-shaped variant. A single-field
//! variant's extractor returns the field's value; a multi-field variant's
//! extractor returns the fields as an ordered tuple, in declared order. The
//! generated function terminates abnormally when called on any other active
//! variant. Unit- and named-field variants are silently skipped; a zero-field
//! tuple variant is a fatal diagnostic unless it carries an
//! `enum_take(ignore)` annotation, whose exclusion covers that variant alone.

use vstd::prelude::*;

use crate::annotations::{scan_annotations, spec_gate, Gate, GateModel};
use crate::emit::{
    concat_texts, emitted_upto, first_diag_upto, impl_block, lemma_concat_push, lemma_emitted_at,
    lemma_emitted_from_some_variant, lemma_first_diag_surfaces, wrap_impl,
};
use crate::model::{
    err_view, parse_declaration, Diag, Error, InputDeclaration, Shape, TypeDeclaration, Variant,
};
use crate::naming::{snake_of, to_snake};
use crate::text::{binders, join_binders, join_comma, join_texts, texts_of};

verus! {

/// The annotation tag recognized by the extractor generator.
pub open spec fn take_tag() -> Seq<char> {
    "enum_take"@
}

/// The source text of the extractor for a single-field tuple variant: it
/// consumes the value and returns the one field, and panics when the active
/// variant is another one.
pub open spec fn single_take_text(ename: Seq<char>, vname: Seq<char>, ty: Seq<char>) -> Seq<
    char,
> {
    "    /// Takes value out of enum value [`"@ + vname + "`]("@ + ename + "::"@ + vname
        + ").\n    ///\n    /// # Panics\n    ///\n    /// This function panics if the wrong value if encountered.\n    pub fn take_"@
        + snake_of(vname) + "(self) -> "@ + ty + " {\n        if let "@ + ename + "::"@ + vname
        + "("@ + snake_of(vname) + ") = self {\n            return "@ + snake_of(vname)
        + ";\n        } else {\n            panic!(\"Tried to take value out of "@ + ename
        + ", but value was not "@ + vname + "\");\n        }\n    }\n"@
}

/// The source text of the extractor for a multi-field tuple variant: it
/// consumes the value and returns the fields as a tuple in declared order,
/// and panics when the active variant is another one.
pub open spec fn multi_take_text(ename: Seq<char>, vname: Seq<char>, tys: Seq<Seq<char>>) -> Seq<
    char,
> {
    "    /// Takes values out of enum value [`"@ + vname + "`]("@ + ename + "::"@ + vname
        + ") as tuple.\n    ///\n    /// # Panics\n    ///\n    /// This function panics if the wrong value if encountered.\n    pub fn take_"@
        + snake_of(vname) + "(self) -> ("@ + join_comma(tys) + ") {\n        if let "@ + ename
        + "::"@ + vname + "("@ + join_comma(binders(tys.len() as int))
        + ") = self {\n            return ("@ + join_comma(binders(tys.len() as int))
        + ");\n        } else {\n            panic!(\"Tried to take values out of "@ + ename
        + " as tuple, but value was not "@ + vname + "\");\n        }\n    }\n"@
}

/// The extractor's source text for a tuple variant with the given field
/// types: the single-field form for one field, the tuple form otherwise.
pub open spec fn take_fn_text(ename: Seq<char>, vname: Seq<char>, tys: Seq<Seq<char>>) -> Seq<
    char,
> {
    if tys.len() == 1 {
        single_take_text(ename, vname, tys[0])
    } else {
        multi_take_text(ename, vname, tys)
    }
}

/// Builds the extractor function's source text for one tuple variant.
fn extractor_for(ename: &String, vname: &String, field_types: &Vec<String>) -> (r: String)
    requires
        field_types@.len() >= 1,
    ensures
        r@ == take_fn_text(ename@, vname@, texts_of(field_types@)),
{
    let snake = to_snake(vname.as_str());
    if field_types.len() == 1 {
        let ty = &field_types[0];
        let mut r = String::from_str("    /// Takes value out of enum value [`");
        r.append(vname.as_str());
        r.append("`](");
        r.append(ename.as_str());
        r.append("::");
        r.append(vname.as_str());
        r.append(
            ").\n    ///\n    /// # Panics\n    ///\n    /// This function panics if the wrong value if encountered.\n    pub fn take_",
        );
        r.append(snake.as_str());
        r.append("(self) -> ");
        r.append(ty.as_str());
        r.append(" {\n        if let ");
        r.append(ename.as_str());
        r.append("::");
        r.append(vname.as_str());
        r.append("(");
        r.append(snake.as_str());
        r.append(") = self {\n            return ");
        r.append(snake.as_str());
        r.append(";\n        } else {\n            panic!(\"Tried to take value out of ");
        r.append(ename.as_str());
        r.append(", but value was not ");
        r.append(vname.as_str());
        r.append("\");\n        }\n    }\n");
        proof {
            assert(texts_of(field_types@)[0] == field_types@[0]@);
        }
        r
    } else {
        let tj = join_texts(field_types);
        let bj = join_binders(field_types.len());
        let mut r = String::from_str("    /// Takes values out of enum value [`");
        r.append(vname.as_str());
        r.append("`](");
        r.append(ename.as_str());
        r.append("::");
        r.append(vname.as_str());
        r.append(
            ") as tuple.\n    ///\n    /// # Panics\n    ///\n    /// This function panics if the wrong value if encountered.\n    pub fn take_",
        );
        r.append(snake.as_str());
        r.append("(self) -> (");
        r.append(tj.as_str());
        r.append(") {\n        if let ");
        r.append(ename.as_str());
        r.append("::");
        r.append(vname.as_str());
        r.append("(");
        r.append(bj.as_str());
        r.append(") = self {\n            return (");
        r.append(bj.as_str());
        r.append(");\n        } else {\n            panic!(\"Tried to take values out of ");
        r.append(ename.as_str());
        r.append(" as tuple, but value was not ");
        r.append(vname.as_str());
        r.append("\");\n        }\n    }\n");
        r
    }
}

/// What one variant contributes to extractor generation: its extractor's text
/// if it is retained and tuple-shaped with at least one field, nothing
/// otherwise.
pub open spec fn take_emit(ename: Seq<char>) -> spec_fn(Variant) -> Option<Seq<char>> {
    |v: Variant|
        match spec_gate(v.annotations@, take_tag()) {
            GateModel::Retain => match v.shape {
                Shape::Tuple { field_types } => if field_types@.len() >= 1 {
                    Some(take_fn_text(ename, v.name@, texts_of(field_types@)))
                } else {
                    None
                },
                _ => None,
            },
            _ => None,
        }
}

/// The diagnostic one variant raises during extractor generation, if any: a
/// recognized annotation whose argument is not the identifier `ignore`, or a
/// retained zero-field tuple shape.
pub open spec fn take_check() -> spec_fn(Variant) -> Option<Diag> {
    |v: Variant|
        match spec_gate(v.annotations@, take_tag()) {
            GateModel::Reject { argument } => Some(
                Diag::AnnotationArgument { attribute: take_tag(), argument, variant: v.name@ },
            ),
            GateModel::Retain => if v.shape matches Shape::Tuple { field_types }
                && field_types@.len() == 0 {
                Some(Diag::EmptyVariant { variant: v.name@ })
            } else {
                None
            },
            GateModel::Skip => None,
        }
}

/// The first diagnostic extractor generation raises for these variants, if
/// any.
pub open spec fn take_diag(vars: Seq<Variant>) -> Option<Diag> {
    first_diag_upto(vars, take_check(), vars.len() as int)
}

/// The texts of all extractor functions generated for these variants, in
/// declaration order.
pub open spec fn take_fns(vars: Seq<Variant>, ename: Seq<char>) -> Seq<Seq<char>> {
    emitted_upto(vars, take_emit(ename), vars.len() as int)
}

/// The whole output of a successful extractor-generation request.
pub open spec fn take_output(vars: Seq<Variant>, ename: Seq<char>) -> Seq<char> {
    impl_block(ename, concat_texts(take_fns(vars, ename)))
}

/// The outcome of one extractor-generation request: the extension block's
/// source text.
pub struct EnumTake(pub String);

impl EnumTake {
    /// Runs the extractor-generation request on a raw declaration: rejects
    /// anything that is not a tagged union, gates each variant on its
    /// `enum_take` annotations, and emits one extractor per retained
    /// tuple-shaped variant, merged into one extension block. A retained
    /// zero-field tuple variant is fatal; the first fatal diagnostic, in
    /// declaration order, voids the whole request.
    pub fn parse(input: InputDeclaration) -> (r: Result<EnumTake, Error>)
        ensures
            !(input.body is TaggedUnion) ==> (r matches Err(e) && err_view(e) == (
            Diag::InputShape { derive_name: "EnumTake"@ })),
            input.body matches crate::model::DeclarationBody::TaggedUnion { variants } ==> {
                &&& r is Ok <==> take_diag(variants@) is None
                &&& (r matches Ok(m) ==> m.0@ == take_output(variants@, input.name@))
                &&& (r matches Err(e) ==> take_diag(variants@) == Some(err_view(e)))
            },
    {
        let decl = match parse_declaration(input, "EnumTake") {
            Ok(d) => d,
            Err(e) => {
                return Err(e);
            },
        };
        match generate_take(decl) {
            Ok(text) => Ok(EnumTake(text)),
            Err(e) => Err(e),
        }
    }
}

/// The extractor-generation pass over an accepted tagged-union declaration.
fn generate_take(decl: TypeDeclaration) -> (r: Result<String, Error>)
    ensures
        r is Ok <==> take_diag(decl.variants@) is None,
        r matches Ok(text) ==> text@ == take_output(decl.variants@, decl.name@),
        r matches Err(e) ==> take_diag(decl.variants@) == Some(err_view(e)),
{
    let ghost vars = decl.variants@;
    let ghost emit = take_emit(decl.name@);
    let ghost check = take_check();
    let tag = String::from_str("enum_take");
    let mut body = String::new();
    let mut i: usize = 0;
    while i < decl.variants.len()
        invariant
            0 <= i <= vars.len(),
            vars == decl.variants@,
            emit == take_emit(decl.name@),
            check == take_check(),
            tag@ == take_tag(),
            first_diag_upto(vars, check, i as int) is None,
            body@ == concat_texts(emitted_upto(vars, emit, i as int)),
        decreases vars.len() - i,
    {
        let v = &decl.variants[i];
        match scan_annotations(&v.annotations, &tag) {
            Gate::Reject { argument } => {
                proof {
                    lemma_first_diag_surfaces(vars, check, i as int);
                }
                return Err(
                    Error::AnnotationArgument { attribute: tag, argument, variant: v.name.clone() },
                );
            },
            Gate::Skip => {},
            Gate::Retain => {
                match &v.shape {
                    Shape::Tuple { field_types } => {
                        if field_types.len() == 0 {
                            proof {
                                lemma_first_diag_surfaces(vars, check, i as int);
                            }
                            return Err(Error::EmptyVariant { variant: v.name.clone() });
                        } else {
                            let f = extractor_for(&decl.name, &v.name, field_types);
                            body.append(f.as_str());
                            proof {
                                lemma_concat_push(emitted_upto(vars, emit, i as int), take_fn_text(
                                    decl.name@,
                                    vars[i as int].name@,
                                    texts_of(field_types@),
                                ));
                            }
                        }
                    },
                    _ => {},
                }
            },
        }
        i += 1;
    }
    Ok(wrap_impl(decl.name.as_str(), body.as_str()))
}

/// Law: a retained tuple-shaped variant with at least one field gets exactly
/// one generated extractor, placed right after the extractors of the retained
/// tuple variants before it; its text is the single-field form for one field
/// and the ordered-tuple form otherwise, with the field types in declared
/// order.
pub proof fn lemma_extractor_emitted_for_tuple(vars: Seq<Variant>, ename: Seq<char>, i: int)
    requires
        0 <= i < vars.len(),
        spec_gate(vars[i].annotations@, take_tag()) is Retain,
        vars[i].shape matches Shape::Tuple { field_types } && field_types@.len() >= 1,
    ensures
        ({
            let fs = take_fns(vars, ename);
            let k = emitted_upto(vars, take_emit(ename), i).len() as int;
            let tys = texts_of(vars[i].shape->Tuple_field_types@);
            0 <= k < fs.len() && fs[k] == take_fn_text(ename, vars[i].name@, tys)
        }),
{
    lemma_emitted_at(vars, take_emit(ename), i);
}

/// Law: every generated extractor comes from a retained tuple-shaped variant
/// with at least one field — unit-shaped and named-field variants never
/// produce one, even when generation is requested for them.
pub proof fn lemma_extractors_only_from_tuple_variants(vars: Seq<Variant>, ename: Seq<char>, j: int)
    requires
        0 <= j < take_fns(vars, ename).len(),
    ensures
        exists|i: int|
            {
                &&& 0 <= i < vars.len()
                &&& spec_gate(#[trigger] vars[i].annotations@, take_tag()) is Retain
                &&& vars[i].shape matches Shape::Tuple { field_types } && field_types@.len() >= 1
                    && take_fns(vars, ename)[j] == take_fn_text(
                    ename,
                    vars[i].name@,
                    texts_of(field_types@),
                )
            },
{
    let emit = take_emit(ename);
    let n = vars.len() as int;
    lemma_emitted_from_some_variant(vars, emit, n, j);
    let i = choose|i: int| 0 <= i < n && #[trigger] emit(vars[i]) == Some(take_fns(vars, ename)[j]);
    assert(spec_gate(vars[i].annotations@, take_tag()) is Retain);
    assert(vars[i].shape matches Shape::Tuple { field_types } && field_types@.len() >= 1
        && take_fns(vars, ename)[j] == take_fn_text(ename, vars[i].name@, texts_of(field_types@)));
}

/// Law: a retained zero-field tuple variant is fatal — provided no earlier
/// variant already raised a diagnostic, the request reports exactly the
/// empty-variant diagnostic naming that variant.
pub proof fn lemma_empty_tuple_variant_fails(vars: Seq<Variant>, i: int)
    requires
        0 <= i < vars.len(),
        first_diag_upto(vars, take_check(), i) is None,
        spec_gate(vars[i].annotations@, take_tag()) is Retain,
        vars[i].shape matches Shape::Tuple { field_types } && field_types@.len() == 0,
    ensures
        take_diag(vars) == Some(Diag::EmptyVariant { variant: vars[i].name@ }),
{
    lemma_first_diag_surfaces(vars, take_check(), i);
}

/// Law: a variant opted out with `enum_take(ignore)` contributes nothing — no
/// diagnostic, even for a zero-field tuple shape, and no extractor; variants
/// after it are unaffected.
pub proof fn lemma_opted_out_variant_is_silent(vars: Seq<Variant>, ename: Seq<char>, i: int)
    requires
        0 <= i < vars.len(),
        spec_gate(vars[i].annotations@, take_tag()) is Skip,
    ensures
        take_check()(vars[i]) is None,
        emitted_upto(vars, take_emit(ename), i + 1) == emitted_upto(vars, take_emit(ename), i),
{
}

/// Law: an annotation recognized by the extractor generator whose argument is
/// not the identifier `ignore` is fatal — provided no earlier variant already
/// raised a diagnostic, the request reports exactly that argument, at that
/// variant.
pub proof fn lemma_take_bad_argument_fails(vars: Seq<Variant>, i: int)
    requires
        0 <= i < vars.len(),
        first_diag_upto(vars, take_check(), i) is None,
        spec_gate(vars[i].annotations@, take_tag()) matches GateModel::Reject { argument },
    ensures
        ({
            let argument = spec_gate(vars[i].annotations@, take_tag())->Reject_argument;
            take_diag(vars) == Some(
                Diag::AnnotationArgument {
                    attribute: take_tag(),
                    argument,
                    variant: vars[i].name@,
                },
            )
        }),
{
    lemma_first_diag_surfaces(vars, take_check(), i);
}

} // verus!
