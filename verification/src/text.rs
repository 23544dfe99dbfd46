//! Small verified text utilities used while synthesizing function source
//! text: decimal numerals for the positional binder names of tuple fields,
//! and comma-separated joining of text pieces.

use vstd::prelude::*;

verus! {

/// The digit character for one decimal digit value.
pub open spec fn digit_char(d: int) -> char {
    if d == 0 {
        '0'
    } else if d == 1 {
        '1'
    } else if d == 2 {
        '2'
    } else if d == 3 {
        '3'
    } else if d == 4 {
        '4'
    } else if d == 5 {
        '5'
    } else if d == 6 {
        '6'
    } else if d == 7 {
        '7'
    } else if d == 8 {
        '8'
    } else {
        '9'
    }
}

/// The decimal numeral of `n`, most significant digit first.
pub open spec fn dec_of(n: nat) -> Seq<char>
    decreases n,
{
    if n < 10 {
        seq![digit_char(n as int)]
    } else {
        dec_of(n / 10) + seq![digit_char((n % 10) as int)]
    }
}

fn digit_str(d: usize) -> (r: &'static str)
    requires
        d < 10,
    ensures
        r@ == seq![digit_char(d as int)],
{
    proof {
        reveal_strlit("0");
        reveal_strlit("1");
        reveal_strlit("2");
        reveal_strlit("3");
        reveal_strlit("4");
        reveal_strlit("5");
        reveal_strlit("6");
        reveal_strlit("7");
        reveal_strlit("8");
        reveal_strlit("9");
    }
    let r: &'static str = if d == 0 {
        "0"
    } else if d == 1 {
        "1"
    } else if d == 2 {
        "2"
    } else if d == 3 {
        "3"
    } else if d == 4 {
        "4"
    } else if d == 5 {
        "5"
    } else if d == 6 {
        "6"
    } else if d == 7 {
        "7"
    } else if d == 8 {
        "8"
    } else {
        "9"
    };
    proof {
        assert(r@ =~= seq![digit_char(d as int)]);
    }
    r
}

/// Renders `n` as its decimal numeral.
pub fn dec_string(n: usize) -> (r: String)
    ensures
        r@ == dec_of(n as nat),
    decreases n,
{
    if n < 10 {
        let mut r = String::new();
        r.append(digit_str(n));
        proof {
            assert(Seq::<char>::empty() + seq![digit_char(n as int)] =~= seq![
                digit_char(n as int),
            ]);
        }
        r
    } else {
        let mut r = dec_string(n / 10);
        r.append(digit_str(n % 10));
        r
    }
}

/// The pieces joined with `", "` between them.
pub open spec fn join_comma(items: Seq<Seq<char>>) -> Seq<char>
    decreases items.len(),
{
    if items.len() == 0 {
        Seq::empty()
    } else if items.len() == 1 {
        items[0]
    } else {
        join_comma(items.drop_last()) + ", "@ + items.last()
    }
}

/// The views of a sequence of owned strings.
pub open spec fn texts_of(items: Seq<String>) -> Seq<Seq<char>> {
    items.map_values(|s: String| s@)
}

/// Joins the given strings with `", "` between them.
pub fn join_texts(items: &Vec<String>) -> (r: String)
    ensures
        r@ == join_comma(texts_of(items@)),
{
    let ghost all = texts_of(items@);
    let mut r = String::new();
    let mut i: usize = 0;
    while i < items.len()
        invariant
            0 <= i <= items@.len(),
            all == texts_of(items@),
            all.len() == items@.len(),
            forall|j: int| 0 <= j < all.len() ==> all[j] == items@[j]@,
            r@ == join_comma(all.take(i as int)),
        decreases items@.len() - i,
    {
        if i > 0 {
            r.append(", ");
        }
        r.append(items[i].as_str());
        proof {
            let t = all.take(i + 1 as int);
            assert(t.drop_last() =~= all.take(i as int));
            assert(t.last() == all[i as int]);
            if i == 0 {
                assert(Seq::<char>::empty() + all[0] =~= all[0]);
            }
        }
        i += 1;
    }
    proof {
        assert(all.take(items@.len() as int) =~= all);
    }
    r
}

/// The positional binder name for tuple field `i`: `field_` and the decimal
/// numeral of `i`.
pub open spec fn binder(i: int) -> Seq<char> {
    "field_"@ + dec_of(i as nat)
}

/// The binder names for the first `n` tuple fields, in order.
pub open spec fn binders(n: int) -> Seq<Seq<char>> {
    Seq::new(n as nat, |i: int| binder(i))
}

/// Joins the binder names of `n` tuple fields with `", "` between them.
pub fn join_binders(n: usize) -> (r: String)
    ensures
        r@ == join_comma(binders(n as int)),
{
    let mut r = String::new();
    let mut i: usize = 0;
    while i < n
        invariant
            0 <= i <= n,
            r@ == join_comma(binders(n as int).take(i as int)),
        decreases n - i,
    {
        if i > 0 {
            r.append(", ");
        }
        r.append("field_");
        let num = dec_string(i);
        r.append(num.as_str());
        proof {
            let all = binders(n as int);
            let t = all.take(i + 1 as int);
            assert(t.drop_last() =~= all.take(i as int));
            assert(t.last() == binder(i as int));
            if i == 0 {
                assert(Seq::<char>::empty() + "field_"@ + dec_of(0) =~= binder(0));
            }
        }
        i += 1;
    }
    proof {
        assert(binders(n as int).take(n as int) =~= binders(n as int));
    }
    r
}

} // verus!
