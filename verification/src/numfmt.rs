//! Rendering match offsets for display: the decimal representation of a
//! number and the comma-separated join of a list of offsets, as the search
//! tool shows them.

use vstd::prelude::*;

verus! {

/// The character for one decimal digit.
pub open spec fn dec_digit(d: int) -> char {
    if d == 0 {
        '0'
    } else if d == 1 {
        '1'
    } else if d == 2 {
        '2'
    } else if d == 3 {
        '3'
    } else if d == 4 {
        '4'
    } else if d == 5 {
        '5'
    } else if d == 6 {
        '6'
    } else if d == 7 {
        '7'
    } else if d == 8 {
        '8'
    } else {
        '9'
    }
}

/// The decimal representation of a nonnegative number, most significant
/// digit first, with no leading zeros (zero itself is "0").
pub open spec fn dec_rep(n: int) -> Seq<char>
    decreases n,
{
    if n < 0 {
        Seq::empty()
    } else if n < 10 {
        seq![dec_digit(n)]
    } else {
        dec_rep(n / 10) + seq![dec_digit(n % 10)]
    }
}

/// The offsets rendered in decimal and joined with a comma and a space.
pub open spec fn joined_offsets(offs: Seq<int>) -> Seq<char>
    decreases offs.len(),
{
    if offs.len() == 0 {
        Seq::empty()
    } else if offs.len() == 1 {
        dec_rep(offs[0])
    } else {
        dec_rep(offs[0]) + ", "@ + joined_offsets(offs.skip(1))
    }
}

/// The one-character string for a decimal digit.
fn digit_str(d: usize) -> (r: &'static str)
    requires
        d < 10,
    ensures
        r@ == seq![dec_digit(d as int)],
{
    match d {
        0 => {
            proof {
                reveal_strlit("0");
                assert("0"@ =~= seq![dec_digit(0)]);
            }
            "0"
        },
        1 => {
            proof {
                reveal_strlit("1");
                assert("1"@ =~= seq![dec_digit(1)]);
            }
            "1"
        },
        2 => {
            proof {
                reveal_strlit("2");
                assert("2"@ =~= seq![dec_digit(2)]);
            }
            "2"
        },
        3 => {
            proof {
                reveal_strlit("3");
                assert("3"@ =~= seq![dec_digit(3)]);
            }
            "3"
        },
        4 => {
            proof {
                reveal_strlit("4");
                assert("4"@ =~= seq![dec_digit(4)]);
            }
            "4"
        },
        5 => {
            proof {
                reveal_strlit("5");
                assert("5"@ =~= seq![dec_digit(5)]);
            }
            "5"
        },
        6 => {
            proof {
                reveal_strlit("6");
                assert("6"@ =~= seq![dec_digit(6)]);
            }
            "6"
        },
        7 => {
            proof {
                reveal_strlit("7");
                assert("7"@ =~= seq![dec_digit(7)]);
            }
            "7"
        },
        8 => {
            proof {
                reveal_strlit("8");
                assert("8"@ =~= seq![dec_digit(8)]);
            }
            "8"
        },
        _ => {
            proof {
                reveal_strlit("9");
                assert("9"@ =~= seq![dec_digit(9)]);
            }
            "9"
        },
    }
}

/// The decimal rendering of `n`.
pub fn to_decimal(n: usize) -> (r: String)
    ensures
        r@ == dec_rep(n as int),
    decreases n,
{
    if n < 10 {
        let d = digit_str(n);
        d.to_owned()
    } else {
        let mut s = to_decimal(n / 10);
        s.append(digit_str(n % 10));
        s
    }
}

/// Appending one offset to a nonempty list appends a separator and its
/// decimal rendering to the joined text.
proof fn lemma_joined_push(m: Seq<int>, v: int)
    ensures
        joined_offsets(m.push(v)) == if m.len() == 0 {
            dec_rep(v)
        } else {
            (joined_offsets(m) + ", "@ + dec_rep(v))
        },
    decreases m.len(),
{
    if m.len() == 0 {
        assert(m.push(v) =~= seq![v]);
        assert(joined_offsets(seq![v]) == dec_rep(v));
    } else if m.len() == 1 {
        assert(m.push(v).skip(1) =~= seq![v]);
        assert(m.push(v)[0] == m[0]);
        assert(joined_offsets(seq![v]) == dec_rep(v));
        assert(joined_offsets(m.push(v))
            == dec_rep(m.push(v)[0]) + ", "@ + joined_offsets(m.push(v).skip(1)));
        assert(joined_offsets(m) == dec_rep(m[0]));
    } else {
        lemma_joined_push(m.skip(1), v);
        assert(m.push(v).skip(1) =~= m.skip(1).push(v));
        assert(m.push(v)[0] == m[0]);
        assert(joined_offsets(m.push(v))
            == dec_rep(m[0]) + ", "@ + (joined_offsets(m.skip(1)) + ", "@ + dec_rep(v)));
        assert(dec_rep(m[0]) + ", "@ + (joined_offsets(m.skip(1)) + ", "@ + dec_rep(v))
            =~= (dec_rep(m[0]) + ", "@ + joined_offsets(m.skip(1))) + ", "@ + dec_rep(v));
    }
}

/// The offsets rendered in decimal, joined with ", ".
pub fn join_offsets(offs: &Vec<usize>) -> (r: String)
    ensures
        r@ == joined_offsets(crate::text_ops::to_ints(offs@)),
{
    let ghost m = crate::text_ops::to_ints(offs@);
    let len = offs.len();
    let mut r = String::new();
    if len == 0 {
        return r;
    }
    let first = to_decimal(offs[0]);
    r.append(first.as_str());
    proof {
        assert(m.take(1) =~= seq![m[0]]);
        assert(r@ == joined_offsets(m.take(1)));
    }
    let mut k: usize = 1;
    while k < len
        invariant
            len == offs@.len(),
            m == crate::text_ops::to_ints(offs@),
            1 <= k <= len,
            r@ == joined_offsets(m.take(k as int)),
        decreases len - k,
    {
        r.append(", ");
        let d = to_decimal(offs[k]);
        r.append(d.as_str());
        proof {
            reveal_strlit(", ");
            lemma_joined_push(m.take(k as int), m[k as int]);
            assert(m.take(k as int).push(m[k as int]) =~= m.take(k + 1));
        }
        k += 1;
    }
    proof {
        assert(m.take(len as int) =~= m);
    }
    r
}

} // verus!
