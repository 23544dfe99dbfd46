//! The predicate generator: one boolean-test function `is_<snake name>` per
//! retained variant, whatever its shape. A variant is excluded only by an
//! `enum_match(ignore)` annotation, and the exclusion covers that variant
//! alone; later variants are still processed.

use vstd::prelude::*;

use crate::annotations::{scan_annotations, spec_gate, Gate, GateModel};
use crate::emit::{
    concat_texts, emitted_upto, first_diag_upto, impl_block, lemma_concat_push, lemma_emitted_at,
    lemma_first_diag_surfaces, wrap_impl,
};
use crate::model::{
    err_view, parse_declaration, Diag, Error, InputDeclaration, Shape, TypeDeclaration, Variant,
};
use crate::naming::{snake_of, to_snake};

verus! {

/// The annotation tag recognized by the predicate generator.
pub open spec fn match_tag() -> Seq<char> {
    "enum_match"@
}

/// The pattern suffix that matches a variant of the given shape with its
/// fields left unread.
pub open spec fn spec_pattern_suffix(shape: Shape) -> Seq<char> {
    match shape {
        Shape::Unit => ""@,
        Shape::Tuple { .. } => "(_)"@,
        Shape::Named { .. } => " { .. }"@,
    }
}

fn pattern_suffix(shape: &Shape) -> (r: &'static str)
    ensures
        r@ == spec_pattern_suffix(*shape),
{
    match shape {
        Shape::Unit => "",
        Shape::Tuple { .. } => "(_)",
        Shape::Named { .. } => " { .. }",
    }
}

/// The source text of the predicate function generated for variant `v` of the
/// type named `ename`: `is_<snake name>` takes the value by reference and
/// reports whether its active variant is `v`, reading no fields.
pub open spec fn pred_text(ename: Seq<char>, v: Variant) -> Seq<char> {
    "    /// Returns [`true`] if [`"@ + ename + "`] has value of [`"@ + v.name@ + "`]("@ + ename
        + "::"@ + v.name@ + ").\n    pub fn is_"@ + snake_of(v.name@)
        + "(&self) -> bool {\n        matches!(self, "@ + ename + "::"@ + v.name@
        + spec_pattern_suffix(v.shape) + ")\n    }\n"@
}

/// Builds the predicate function's source text for one variant.
fn predicate_for(ename: &String, v: &Variant) -> (r: String)
    ensures
        r@ == pred_text(ename@, *v),
{
    let snake = to_snake(v.name.as_str());
    let mut r = String::from_str("    /// Returns [`true`] if [`");
    r.append(ename.as_str());
    r.append("`] has value of [`");
    r.append(v.name.as_str());
    r.append("`](");
    r.append(ename.as_str());
    r.append("::");
    r.append(v.name.as_str());
    r.append(").\n    pub fn is_");
    r.append(snake.as_str());
    r.append("(&self) -> bool {\n        matches!(self, ");
    r.append(ename.as_str());
    r.append("::");
    r.append(v.name.as_str());
    r.append(pattern_suffix(&v.shape));
    r.append(")\n    }\n");
    r
}

/// What one variant contributes to predicate generation: its predicate's text
/// if it is retained, nothing if it is opted out or rejected.
pub open spec fn match_emit(ename: Seq<char>) -> spec_fn(Variant) -> Option<Seq<char>> {
    |v: Variant|
        match spec_gate(v.annotations@, match_tag()) {
            GateModel::Retain => Some(pred_text(ename, v)),
            _ => None,
        }
}

/// The diagnostic one variant raises during predicate generation, if any: a
/// recognized annotation whose argument is not the identifier `ignore`.
pub open spec fn match_check() -> spec_fn(Variant) -> Option<Diag> {
    |v: Variant|
        match spec_gate(v.annotations@, match_tag()) {
            GateModel::Reject { argument } => Some(
                Diag::AnnotationArgument { attribute: match_tag(), argument, variant: v.name@ },
            ),
            _ => None,
        }
}

/// The first diagnostic predicate generation raises for these variants, if
/// any.
pub open spec fn match_diag(vars: Seq<Variant>) -> Option<Diag> {
    first_diag_upto(vars, match_check(), vars.len() as int)
}

/// The texts of all predicate functions generated for these variants, in
/// declaration order.
pub open spec fn match_fns(vars: Seq<Variant>, ename: Seq<char>) -> Seq<Seq<char>> {
    emitted_upto(vars, match_emit(ename), vars.len() as int)
}

/// The whole output of a successful predicate-generation request.
pub open spec fn match_output(vars: Seq<Variant>, ename: Seq<char>) -> Seq<char> {
    impl_block(ename, concat_texts(match_fns(vars, ename)))
}

/// The outcome of one predicate-generation request: the extension block's
/// source text.
pub struct EnumMatch(pub String);

impl EnumMatch {
    /// Runs the predicate-generation request on a raw declaration: rejects
    /// anything that is not a tagged union, gates each variant on its
    /// `enum_match` annotations, and emits one predicate per retained
    /// variant, merged into one extension block. The first fatal diagnostic,
    /// in declaration order, voids the whole request.
    pub fn parse(input: InputDeclaration) -> (r: Result<EnumMatch, Error>)
        ensures
            !(input.body is TaggedUnion) ==> (r matches Err(e) && err_view(e) == (
            Diag::InputShape { derive_name: "EnumMatch"@ })),
            input.body matches crate::model::DeclarationBody::TaggedUnion { variants } ==> {
                &&& r is Ok <==> match_diag(variants@) is None
                &&& (r matches Ok(m) ==> m.0@ == match_output(variants@, input.name@))
                &&& (r matches Err(e) ==> match_diag(variants@) == Some(err_view(e)))
            },
    {
        let decl = match parse_declaration(input, "EnumMatch") {
            Ok(d) => d,
            Err(e) => {
                return Err(e);
            },
        };
        match generate_match(decl) {
            Ok(text) => Ok(EnumMatch(text)),
            Err(e) => Err(e),
        }
    }
}

/// The predicate-generation pass over an accepted tagged-union declaration.
fn generate_match(decl: TypeDeclaration) -> (r: Result<String, Error>)
    ensures
        r is Ok <==> match_diag(decl.variants@) is None,
        r matches Ok(text) ==> text@ == match_output(decl.variants@, decl.name@),
        r matches Err(e) ==> match_diag(decl.variants@) == Some(err_view(e)),
{
    let ghost vars = decl.variants@;
    let ghost emit = match_emit(decl.name@);
    let ghost check = match_check();
    let tag = String::from_str("enum_match");
    let mut body = String::new();
    let mut i: usize = 0;
    while i < decl.variants.len()
        invariant
            0 <= i <= vars.len(),
            vars == decl.variants@,
            emit == match_emit(decl.name@),
            check == match_check(),
            tag@ == match_tag(),
            first_diag_upto(vars, check, i as int) is None,
            body@ == concat_texts(emitted_upto(vars, emit, i as int)),
        decreases vars.len() - i,
    {
        let v = &decl.variants[i];
        match scan_annotations(&v.annotations, &tag) {
            Gate::Reject { argument } => {
                proof {
                    lemma_first_diag_surfaces(vars, check, i as int);
                }
                return Err(
                    Error::AnnotationArgument { attribute: tag, argument, variant: v.name.clone() },
                );
            },
            Gate::Skip => {},
            Gate::Retain => {
                let f = predicate_for(&decl.name, v);
                body.append(f.as_str());
                proof {
                    lemma_concat_push(emitted_upto(vars, emit, i as int), pred_text(
                        decl.name@,
                        vars[i as int],
                    ));
                }
            },
        }
        i += 1;
    }
    Ok(wrap_impl(decl.name.as_str(), body.as_str()))
}

/// Law: every variant without a recognized opt-out — whatever its shape —
/// gets exactly one generated predicate, placed right after the predicates of
/// the retained variants before it, and its text is the `is_<snake name>`
/// boolean test of that variant.
pub proof fn lemma_predicate_emitted_for_retained(vars: Seq<Variant>, ename: Seq<char>, i: int)
    requires
        0 <= i < vars.len(),
        spec_gate(vars[i].annotations@, match_tag()) is Retain,
    ensures
        ({
            let fs = match_fns(vars, ename);
            let k = emitted_upto(vars, match_emit(ename), i).len() as int;
            0 <= k < fs.len() && fs[k] == pred_text(ename, vars[i])
        }),
{
    lemma_emitted_at(vars, match_emit(ename), i);
}

/// Law: every generated predicate comes from a retained variant — a variant
/// opted out with `enum_match(ignore)` never produces one, and each emitted
/// function is the `is_<snake name>` test of the variant it comes from.
pub proof fn lemma_predicates_only_from_retained_variants(
    vars: Seq<Variant>,
    ename: Seq<char>,
    j: int,
)
    requires
        0 <= j < match_fns(vars, ename).len(),
    ensures
        exists|i: int|
            {
                &&& 0 <= i < vars.len()
                &&& spec_gate(#[trigger] vars[i].annotations@, match_tag()) is Retain
                &&& match_fns(vars, ename)[j] == pred_text(ename, vars[i])
            },
{
    let emit = match_emit(ename);
    let n = vars.len() as int;
    crate::emit::lemma_emitted_from_some_variant(vars, emit, n, j);
    let i = choose|i: int|
        0 <= i < n && #[trigger] emit(vars[i]) == Some(match_fns(vars, ename)[j]);
    assert(spec_gate(vars[i].annotations@, match_tag()) is Retain);
    assert(match_fns(vars, ename)[j] == pred_text(ename, vars[i]));
}

/// Law: an annotation recognized by the predicate generator whose argument is
/// not the identifier `ignore` is fatal — provided no earlier variant already
/// raised a diagnostic, the request reports exactly that argument, at that
/// variant.
pub proof fn lemma_match_bad_argument_fails(vars: Seq<Variant>, i: int)
    requires
        0 <= i < vars.len(),
        first_diag_upto(vars, match_check(), i) is None,
        spec_gate(vars[i].annotations@, match_tag()) matches GateModel::Reject { argument },
    ensures
        ({
            let argument = spec_gate(vars[i].annotations@, match_tag())->Reject_argument;
            match_diag(vars) == Some(
                Diag::AnnotationArgument {
                    attribute: match_tag(),
                    argument,
                    variant: vars[i].name@,
                },
            )
        }),
{
    lemma_first_diag_surfaces(vars, match_check(), i);
}

} // verus!
