//! Literal (non-pattern) substring search and replace over character
//! sequences: the specification functions that say where the non-overlapping,
//! left-to-right matches of a pattern lie and what replacing them yields, and
//! the executable scan that realises them.

use vstd::prelude::*;

verus! {

/// The sequence of `usize` values `s`, as mathematical integers.
pub open spec fn to_ints(s: Seq<usize>) -> Seq<int> {
    s.map_values(|v: usize| v as int)
}

/// `pat` matches `text` at character offset `i`.
pub open spec fn occurs_at(text: Seq<char>, pat: Seq<char>, i: int) -> bool {
    &&& 0 <= i
    &&& i + pat.len() <= text.len()
    &&& text.subrange(i, i + pat.len()) == pat
}

/// `pat` matches `text` somewhere.
pub open spec fn occurs(text: Seq<char>, pat: Seq<char>) -> bool {
    exists|i: int| occurs_at(text, pat, i)
}

/// The character offsets of the non-overlapping, left-to-right matches of
/// `pat` in `text`, scanning from offset `i` on. After a match the scan
/// resumes just past it. The empty pattern matches nowhere.
pub open spec fn match_offsets(text: Seq<char>, pat: Seq<char>, i: int) -> Seq<int>
    decreases text.len() - i,
{
    if pat.len() == 0 || i < 0 || i + pat.len() > text.len() {
        Seq::empty()
    } else if text.subrange(i, i + pat.len()) == pat {
        seq![i] + match_offsets(text, pat, i + pat.len())
    } else {
        match_offsets(text, pat, i + 1)
    }
}

/// The text from offset `i` on, with every non-overlapping, left-to-right
/// match of `pat` replaced by `rep`. The empty pattern replaces nothing.
pub open spec fn replaced(text: Seq<char>, pat: Seq<char>, rep: Seq<char>, i: int) -> Seq<char>
    decreases text.len() - i,
{
    if i < 0 || i > text.len() {
        Seq::empty()
    } else if pat.len() == 0 || i + pat.len() > text.len() {
        text.subrange(i, text.len() as int)
    } else if text.subrange(i, i + pat.len()) == pat {
        rep + replaced(text, pat, rep, i + pat.len())
    } else {
        seq![text[i]] + replaced(text, pat, rep, i + 1)
    }
}

/// Whether `pat` matches `text` at character offset `i`. The caller hands in
/// the two lengths so that they are measured once per scan.
fn matches_at(text: &str, pat: &str, i: usize, n: usize, m: usize) -> (r: bool)
    requires
        n == text@.len(),
        m == pat@.len(),
        i + m <= n,
    ensures
        r == (text@.subrange(i as int, i + m) == pat@),
{
    let mut j: usize = 0;
    while j < m
        invariant
            n == text@.len(),
            m == pat@.len(),
            i + m <= n,
            j <= m,
            forall|k: int| 0 <= k < j ==> text@[i + k] == pat@[k],
        decreases m - j,
    {
        if text.get_char(i + j) != pat.get_char(j) {
            proof {
                assert(text@.subrange(i as int, i + m)[j as int] != pat@[j as int]);
            }
            return false;
        }
        j += 1;
    }
    proof {
        assert(text@.subrange(i as int, i + m) =~= pat@);
    }
    true
}

/// The non-overlapping, left-to-right character offsets of `pat` in `text`.
pub fn find_matches(text: &str, pat: &str) -> (r: Vec<usize>)
    ensures
        to_ints(r@) == match_offsets(text@, pat@, 0),
        pat@.len() == 0 ==> r@.len() == 0,
{
    let n = text.unicode_len();
    let m = pat.unicode_len();
    let mut r: Vec<usize> = Vec::new();
    if m == 0 || m > n {
        proof {
            assert(to_ints(r@) =~= match_offsets(text@, pat@, 0));
        }
        return r;
    }
    let mut i: usize = 0;
    while i <= n - m
        invariant
            n == text@.len(),
            m == pat@.len(),
            1 <= m <= n,
            i <= n,
            match_offsets(text@, pat@, 0) == to_ints(r@) + match_offsets(text@, pat@, i as int),
        decreases n - i,
    {
        let ghost r0 = r@;
        if matches_at(text, pat, i, n, m) {
            r.push(i);
            proof {
                assert(to_ints(r@) =~= to_ints(r0).push(i as int));
                assert(to_ints(r@) + match_offsets(text@, pat@, i + m)
                    =~= to_ints(r0) + match_offsets(text@, pat@, i as int));
            }
            i += m;
        } else {
            i += 1;
        }
    }
    proof {
        assert(match_offsets(text@, pat@, i as int) == Seq::<int>::empty());
        assert(to_ints(r@) + Seq::<int>::empty() =~= to_ints(r@));
    }
    r
}

/// A copy of `text` with every non-overlapping, left-to-right match of `pat`
/// replaced by `rep`, together with the number of replacements made.
pub fn replace_matches(text: &str, pat: &str, rep: &str) -> (res: (String, usize))
    ensures
        res.0@ == replaced(text@, pat@, rep@, 0),
        res.1 as int == match_offsets(text@, pat@, 0).len(),
        pat@.len() == 0 ==> res.0@ == text@ && res.1 == 0,
{
    let n = text.unicode_len();
    let m = pat.unicode_len();
    if m == 0 || m > n {
        let copy: String = text.to_owned();
        proof {
            assert(replaced(text@, pat@, rep@, 0) =~= text@);
        }
        return (copy, 0);
    }
    let mut out = String::new();
    let mut count: usize = 0;
    let mut i: usize = 0;
    while i <= n - m
        invariant
            n == text@.len(),
            m == pat@.len(),
            1 <= m <= n,
            i <= n,
            count <= i,
            replaced(text@, pat@, rep@, 0) == out@ + replaced(text@, pat@, rep@, i as int),
            count + match_offsets(text@, pat@, i as int).len()
                == match_offsets(text@, pat@, 0).len(),
        decreases n - i,
    {
        let ghost out0 = out@;
        if matches_at(text, pat, i, n, m) {
            out.append(rep);
            count += 1;
            proof {
                assert(out@ + replaced(text@, pat@, rep@, i + m)
                    =~= out0 + replaced(text@, pat@, rep@, i as int));
            }
            i += m;
        } else {
            let piece = text.substring_char(i, i + 1);
            out.append(piece);
            proof {
                assert(text@.subrange(i as int, i + 1) =~= seq![text@[i as int]]);
                assert(out@ + replaced(text@, pat@, rep@, i + 1)
                    =~= out0 + replaced(text@, pat@, rep@, i as int));
            }
            i += 1;
        }
    }
    let tail = text.substring_char(i, n);
    out.append(tail);
    proof {
        assert(replaced(text@, pat@, rep@, i as int)
            == text@.subrange(i as int, text@.len() as int));
    }
    (out, count)
}

/// Every offset the scan reports is a genuine occurrence, they lie at or
/// after the scan's start, they come left to right, and consecutive matches
/// do not overlap.
pub proof fn lemma_match_offsets_valid(text: Seq<char>, pat: Seq<char>, i: int)
    ensures
        ({
            let offs = match_offsets(text, pat, i);
            &&& forall|k: int| 0 <= k < offs.len() ==> occurs_at(text, pat, #[trigger] offs[k])
            &&& forall|k: int| 0 <= k < offs.len() ==> i <= #[trigger] offs[k]
            &&& forall|k: int|
                0 <= k && k + 1 < offs.len() ==> #[trigger] offs[k] + pat.len() <= offs[k + 1]
        }),
    decreases text.len() - i,
{
    let offs = match_offsets(text, pat, i);
    if pat.len() == 0 || i < 0 || i + pat.len() > text.len() {
        assert(offs.len() == 0);
    } else if text.subrange(i, i + pat.len()) == pat {
        lemma_match_offsets_valid(text, pat, i + pat.len());
        let rest = match_offsets(text, pat, i + pat.len());
        assert(offs == seq![i] + rest);
        assert(occurs_at(text, pat, i));
        assert forall|k: int| 0 <= k < offs.len() implies occurs_at(
            text,
            pat,
            #[trigger] offs[k],
        ) by {
            if k == 0 {
                assert(offs[0] == i);
            } else {
                assert(offs[k] == rest[k - 1]);
                assert(occurs_at(text, pat, rest[k - 1]));
            }
        }
        assert forall|k: int| 0 <= k < offs.len() implies i <= #[trigger] offs[k] by {
            if k == 0 {
                assert(offs[0] == i);
            } else {
                assert(offs[k] == rest[k - 1]);
                assert(i + pat.len() <= rest[k - 1]);
            }
        }
        assert forall|k: int| 0 <= k && k + 1 < offs.len() implies #[trigger] offs[k] + pat.len()
            <= offs[k + 1] by {
            if k == 0 {
                assert(offs[1] == rest[0]);
                assert(i + pat.len() <= rest[0]);
            } else {
                assert(offs[k] == rest[k - 1]);
                assert(offs[k + 1] == rest[k]);
                assert(rest[k - 1] + pat.len() <= rest[k]);
            }
        }
    } else {
        lemma_match_offsets_valid(text, pat, i + 1);
        let rest = match_offsets(text, pat, i + 1);
        assert(offs == rest);
        assert forall|k: int| 0 <= k < offs.len() implies occurs_at(
            text,
            pat,
            #[trigger] offs[k],
        ) by {
            assert(occurs_at(text, pat, rest[k]));
        }
        assert forall|k: int| 0 <= k < offs.len() implies i <= #[trigger] offs[k] by {
            assert(i + 1 <= rest[k]);
        }
    }
}

/// Where `pat` occurs at or after offset `i`, the scan from `i` reports a
/// match, and its first report is at or before that occurrence: the scan
/// finds the leftmost occurrence first.
pub proof fn lemma_match_offsets_complete(text: Seq<char>, pat: Seq<char>, i: int, j: int)
    requires
        pat.len() > 0,
        0 <= i <= j,
        occurs_at(text, pat, j),
    ensures
        match_offsets(text, pat, i).len() > 0,
        match_offsets(text, pat, i)[0] <= j,
    decreases text.len() - i,
{
    if text.subrange(i, i + pat.len()) == pat {
        assert(match_offsets(text, pat, i)[0] == i);
    } else {
        assert(i != j);
        lemma_match_offsets_complete(text, pat, i + 1, j);
    }
}

/// Where a nonempty `pat` matches nowhere at or after offset `i`, the scan
/// from `i` finds no match and replacement returns the rest of the text
/// unchanged.
proof fn lemma_absent_from(text: Seq<char>, pat: Seq<char>, rep: Seq<char>, i: int)
    requires
        pat.len() > 0,
        0 <= i <= text.len(),
        forall|j: int| i <= j ==> !occurs_at(text, pat, j),
    ensures
        replaced(text, pat, rep, i) == text.subrange(i, text.len() as int),
        match_offsets(text, pat, i).len() == 0,
    decreases text.len() - i,
{
    if i + pat.len() > text.len() {
        // no room for a match: both functions are at their base case
    } else {
        assert(!occurs_at(text, pat, i));
        lemma_absent_from(text, pat, rep, i + 1);
        assert(seq![text[i]] + text.subrange(i + 1, text.len() as int)
            =~= text.subrange(i, text.len() as int));
    }
}

/// Replacing a pattern that occurs nowhere in the text makes no replacement:
/// there are no matches, and the text comes back unchanged. (The empty
/// pattern occurs trivially, so the premise makes `pat` nonempty.)
pub proof fn lemma_replace_absent(text: Seq<char>, pat: Seq<char>, rep: Seq<char>)
    requires
        !occurs(text, pat),
    ensures
        replaced(text, pat, rep, 0) == text,
        match_offsets(text, pat, 0).len() == 0,
{
    if pat.len() == 0 {
        assert(text.subrange(0, 0) =~= pat);
        assert(occurs_at(text, pat, 0));
        assert(false);
    } else {
        assert forall|j: int| 0 <= j implies !occurs_at(text, pat, j) by {
            if occurs_at(text, pat, j) {
                assert(occurs(text, pat));
            }
        }
        lemma_absent_from(text, pat, rep, 0);
        assert(text.subrange(0, text.len() as int) =~= text);
    }
}

} // verus!
