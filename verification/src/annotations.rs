//! Annotation processing: for one generation request, a variant's annotations
//! are scanned in order for the request's recognized tag. A matching
//! annotation must carry the single identifier `ignore`, which excludes the
//! annotated variant (and only that variant) from generation; any other
//! argument is a fatal diagnostic.

use vstd::prelude::*;

use crate::model::{Annotation, Variant};

verus! {

/// The decision taken for one variant: keep it, skip it, or abort generation.
/// `Reject { argument: None }` means the argument did not lex as a single
/// identifier; `Some` carries an identifier other than `ignore`.
#[derive(Clone, Debug)]
pub enum Gate {
    Retain,
    Skip,
    Reject { argument: Option<String> },
}

/// Mathematical model of a [`Gate`], with the argument as a `Seq<char>`.
pub enum GateModel {
    Retain,
    Skip,
    Reject { argument: Option<Seq<char>> },
}

pub open spec fn gate_view(g: Gate) -> GateModel {
    match g {
        Gate::Retain => GateModel::Retain,
        Gate::Skip => GateModel::Skip,
        Gate::Reject { argument } => GateModel::Reject {
            argument: crate::model::opt_text_view(argument),
        },
    }
}

/// Whether `c` may start a bare identifier: an ASCII letter or an underscore.
pub open spec fn is_ident_start(c: char) -> bool {
    ('a' as u32) <= (c as u32) && (c as u32) <= ('z' as u32) || ('A' as u32) <= (c as u32) && (
    c as u32) <= ('Z' as u32) || c == '_'
}

/// Whether `c` may continue a bare identifier: a start character or an ASCII
/// digit.
pub open spec fn is_ident_continue(c: char) -> bool {
    is_ident_start(c) || ('0' as u32) <= (c as u32) && (c as u32) <= ('9' as u32)
}

/// Whether `s` lexes as one bare identifier. A lone underscore is not an
/// identifier; non-ASCII and raw identifiers are not modelled.
pub open spec fn is_ident_seq(s: Seq<char>) -> bool {
    &&& s.len() > 0
    &&& is_ident_start(s[0])
    &&& forall|i: int| 1 <= i < s.len() ==> is_ident_continue(#[trigger] s[i])
    &&& s != seq!['_']
}

/// Decides whether `s` lexes as one bare identifier.
pub fn is_identifier(s: &str) -> (r: bool)
    ensures
        r == is_ident_seq(s@),
{
    let n = s.unicode_len();
    if n == 0 {
        return false;
    }
    let c0 = s.get_char(0);
    let u0 = c0 as u32;
    if !((97 <= u0 && u0 <= 122) || (65 <= u0 && u0 <= 90) || c0 == '_') {
        return false;
    }
    if n == 1 && c0 == '_' {
        proof {
            assert(s@ =~= seq!['_']);
        }
        return false;
    }
    let mut i: usize = 1;
    while i < n
        invariant
            1 <= i <= n,
            n == s@.len(),
            is_ident_start(s@[0]),
            forall|j: int| 1 <= j < i ==> is_ident_continue(#[trigger] s@[j]),
        decreases n - i,
    {
        let c = s.get_char(i);
        let u = c as u32;
        if !((97 <= u && u <= 122) || (65 <= u && u <= 90) || c == '_' || (48 <= u && u <= 57)) {
            return false;
        }
        i += 1;
    }
    proof {
        if s@ == seq!['_'] {
            assert(s@.len() == 1);
            assert(s@[0] == '_');
        }
    }
    true
}

/// The decision for a variant whose annotations are `anns`, scanning from
/// position `i` for the first annotation whose tag is `tag`.
pub open spec fn gate_from(anns: Seq<Annotation>, tag: Seq<char>, i: int) -> GateModel
    decreases anns.len() - i,
{
    if i < 0 || i >= anns.len() {
        GateModel::Retain
    } else if anns[i].tag@ == tag {
        if is_ident_seq(anns[i].argument@) {
            if anns[i].argument@ == "ignore"@ {
                GateModel::Skip
            } else {
                GateModel::Reject { argument: Some(anns[i].argument@) }
            }
        } else {
            GateModel::Reject { argument: None }
        }
    } else {
        gate_from(anns, tag, i + 1)
    }
}

/// The decision for a variant: its annotations scanned in order for `tag`.
pub open spec fn spec_gate(anns: Seq<Annotation>, tag: Seq<char>) -> GateModel {
    gate_from(anns, tag, 0)
}

/// Scans a variant's annotations in order for the first one tagged `tag` and
/// decides whether the variant is retained, skipped, or a fatal diagnostic.
pub fn scan_annotations(anns: &Vec<Annotation>, tag: &String) -> (g: Gate)
    ensures
        gate_view(g) == spec_gate(anns@, tag@),
{
    let ignore_word = String::from_str("ignore");
    let mut i: usize = 0;
    while i < anns.len()
        invariant
            0 <= i <= anns@.len(),
            ignore_word@ == "ignore"@,
            gate_from(anns@, tag@, 0) == gate_from(anns@, tag@, i as int),
        decreases anns@.len() - i,
    {
        let a = &anns[i];
        if a.tag == *tag {
            if is_identifier(a.argument.as_str()) {
                if a.argument == ignore_word {
                    return Gate::Skip;
                } else {
                    return Gate::Reject { argument: Some(a.argument.clone()) };
                }
            } else {
                return Gate::Reject { argument: None };
            }
        }
        i += 1;
    }
    Gate::Retain
}

} // verus!
