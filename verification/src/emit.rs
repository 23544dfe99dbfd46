//! The code emitter: a generation pass walks the variants in declaration
//! order, each variant contributing either one generated function's source
//! text or nothing, unless some variant raises a fatal diagnostic — the first
//! one, in declaration order, voids the whole request. The emitted functions
//! are merged into one extension block scoped to the type's name.

use vstd::prelude::*;

use crate::model::{Diag, Variant};

verus! {

/// All the pieces concatenated in order.
pub open spec fn concat_texts(s: Seq<Seq<char>>) -> Seq<char>
    decreases s.len(),
{
    if s.len() == 0 {
        Seq::empty()
    } else {
        concat_texts(s.drop_last()) + s.last()
    }
}

pub proof fn lemma_concat_push(s: Seq<Seq<char>>, t: Seq<char>)
    ensures
        concat_texts(s.push(t)) == concat_texts(s) + t,
{
    assert(s.push(t).drop_last() =~= s);
    assert(s.push(t).last() == t);
}

/// The source texts of the functions emitted for the first `i` variants:
/// `emit` gives each variant's contribution, `None` standing for none.
pub open spec fn emitted_upto(
    vars: Seq<Variant>,
    emit: spec_fn(Variant) -> Option<Seq<char>>,
    i: int,
) -> Seq<Seq<char>>
    decreases i,
{
    if i <= 0 {
        Seq::empty()
    } else {
        let prev = emitted_upto(vars, emit, i - 1);
        match emit(vars[i - 1]) {
            Some(t) => prev.push(t),
            None => prev,
        }
    }
}

/// The first fatal diagnostic raised by the first `i` variants, in
/// declaration order, if any: `check` gives each variant's diagnostic.
pub open spec fn first_diag_upto(
    vars: Seq<Variant>,
    check: spec_fn(Variant) -> Option<Diag>,
    i: int,
) -> Option<Diag>
    decreases i,
{
    if i <= 0 {
        None
    } else {
        match first_diag_upto(vars, check, i - 1) {
            Some(d) => Some(d),
            None => check(vars[i - 1]),
        }
    }
}

/// A later prefix of the walk extends an earlier one: what was emitted stays,
/// at its position.
pub proof fn lemma_emitted_prefix(
    vars: Seq<Variant>,
    emit: spec_fn(Variant) -> Option<Seq<char>>,
    i: int,
    j: int,
)
    requires
        0 <= i <= j,
    ensures
        emitted_upto(vars, emit, i).len() <= emitted_upto(vars, emit, j).len(),
        forall|k: int|
            0 <= k < emitted_upto(vars, emit, i).len() ==> #[trigger] emitted_upto(vars, emit, j)[k]
                == emitted_upto(vars, emit, i)[k],
    decreases j - i,
{
    if i < j {
        lemma_emitted_prefix(vars, emit, i, j - 1);
    }
}

/// A variant that emits a function places its text right after everything the
/// variants before it emitted.
pub proof fn lemma_emitted_at(
    vars: Seq<Variant>,
    emit: spec_fn(Variant) -> Option<Seq<char>>,
    i: int,
)
    requires
        0 <= i < vars.len(),
        emit(vars[i]) is Some,
    ensures
        ({
            let all = emitted_upto(vars, emit, vars.len() as int);
            let k = emitted_upto(vars, emit, i).len() as int;
            0 <= k < all.len() && all[k] == emit(vars[i])->Some_0
        }),
{
    let k = emitted_upto(vars, emit, i).len() as int;
    assert(emitted_upto(vars, emit, i + 1)[k] == emit(vars[i])->Some_0);
    lemma_emitted_prefix(vars, emit, i + 1, vars.len() as int);
}

/// Every emitted function text is the contribution of some variant.
pub proof fn lemma_emitted_from_some_variant(
    vars: Seq<Variant>,
    emit: spec_fn(Variant) -> Option<Seq<char>>,
    n: int,
    j: int,
)
    requires
        0 <= n <= vars.len(),
        0 <= j < emitted_upto(vars, emit, n).len(),
    ensures
        exists|i: int|
            0 <= i < n && #[trigger] emit(vars[i]) == Some(emitted_upto(vars, emit, n)[j]),
    decreases n,
{
    if n > 0 {
        let prev = emitted_upto(vars, emit, n - 1);
        if j < prev.len() {
            lemma_emitted_from_some_variant(vars, emit, n - 1, j);
        } else {
            assert(emit(vars[n - 1]) == Some(emitted_upto(vars, emit, n)[j]));
        }
    }
}

/// Law: the emitted functions keep the variants' declaration order — of two
/// variants that both emit a function, the earlier variant's function stands
/// earlier in the output.
pub proof fn lemma_emitted_in_declaration_order(
    vars: Seq<Variant>,
    emit: spec_fn(Variant) -> Option<Seq<char>>,
    i1: int,
    i2: int,
)
    requires
        0 <= i1 < i2 < vars.len(),
        emit(vars[i1]) is Some,
    ensures
        emitted_upto(vars, emit, i1).len() < emitted_upto(vars, emit, i2).len(),
{
    lemma_emitted_prefix(vars, emit, i1 + 1, i2);
}

/// Once a diagnostic is raised, it is the one the whole walk reports.
pub proof fn lemma_first_diag_stable(
    vars: Seq<Variant>,
    check: spec_fn(Variant) -> Option<Diag>,
    i: int,
    j: int,
)
    requires
        0 <= i <= j,
        first_diag_upto(vars, check, i) is Some,
    ensures
        first_diag_upto(vars, check, j) == first_diag_upto(vars, check, i),
    decreases j - i,
{
    if i < j {
        lemma_first_diag_stable(vars, check, i, j - 1);
    }
}

/// If no variant before `i` raises a diagnostic and variant `i` does, that
/// diagnostic is the one the whole walk reports.
pub proof fn lemma_first_diag_surfaces(
    vars: Seq<Variant>,
    check: spec_fn(Variant) -> Option<Diag>,
    i: int,
)
    requires
        0 <= i < vars.len(),
        first_diag_upto(vars, check, i) is None,
        check(vars[i]) is Some,
    ensures
        first_diag_upto(vars, check, vars.len() as int) == check(vars[i]),
{
    assert(first_diag_upto(vars, check, i + 1) == check(vars[i]));
    lemma_first_diag_stable(vars, check, i + 1, vars.len() as int);
}

/// The extension block that scopes the emitted functions to the type's name.
pub open spec fn impl_block(ename: Seq<char>, body: Seq<char>) -> Seq<char> {
    "impl "@ + ename + " {\n"@ + body + "}\n"@
}

/// Wraps the emitted functions' source text in the extension block of the
/// named type.
pub fn wrap_impl(ename: &str, body: &str) -> (r: String)
    ensures
        r@ == impl_block(ename@, body@),
{
    let mut r = String::from_str("impl ");
    r.append(ename);
    r.append(" {\n");
    r.append(body);
    r.append("}\n");
    r
}

} // verus!
