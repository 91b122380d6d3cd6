//! Substring matching over strings, viewed as sequences of characters.

use vstd::prelude::*;

verus! {

/// `needle` occurs contiguously somewhere inside `hay`.
pub open spec fn contains_seq(hay: Seq<char>, needle: Seq<char>) -> bool {
    exists|i: int|
        0 <= i <= hay.len() - needle.len() && #[trigger] hay.subrange(
            i,
            i + needle.len() as int,
        ) == needle
}

/// Some element of `subs` occurs inside `hay`.
pub open spec fn any_contains(subs: Seq<Seq<char>>, hay: Seq<char>) -> bool {
    exists|k: int| 0 <= k < subs.len() && contains_seq(hay, #[trigger] subs[k])
}

/// Decides whether `needle` occurs as a contiguous substring of `hay`,
/// comparing character by character.
pub fn contains_sub(hay: &str, needle: &str) -> (r: bool)
    ensures
        r == contains_seq(hay@, needle@),
{
    let hlen = hay.unicode_len();
    let nlen = needle.unicode_len();
    if nlen > hlen {
        return false;
    }
    let mut i: usize = 0;
    while i <= hlen - nlen
        invariant
            hlen == hay@.len(),
            nlen == needle@.len(),
            nlen <= hlen,
            i <= hlen - nlen + 1,
            forall|k: int|
                0 <= k < i ==> #[trigger] hay@.subrange(k, k + needle@.len() as int) != needle@,
        decreases hlen - nlen - i + 1,
    {
        let mut j: usize = 0;
        let mut all_eq = true;
        while j < nlen
            invariant
                hlen == hay@.len(),
                nlen == needle@.len(),
                i + nlen <= hlen,
                j <= nlen,
                all_eq <==> (forall|m: int| 0 <= m < j ==> hay@[i + m] == needle@[m]),
            decreases nlen - j,
        {
            if hay.get_char(i + j) != needle.get_char(j) {
                all_eq = false;
            }
            j += 1;
        }
        if all_eq {
            assert(hay@.subrange(i as int, i + needle@.len() as int) =~= needle@);
            return true;
        }
        i += 1;
    }
    false
}

/// Decides whether some element of `subs` occurs inside `hay`.
pub fn matches_any(subs: &Vec<String>, hay: &str) -> (r: bool)
    ensures
        r == any_contains(subs.deep_view(), hay@),
{
    let mut k: usize = 0;
    while k < subs.len()
        invariant
            k <= subs@.len(),
            forall|m: int| 0 <= m < k ==> !contains_seq(hay@, #[trigger] subs.deep_view()[m]),
        decreases subs@.len() - k,
    {
        if contains_sub(hay, subs[k].as_str()) {
            assert(contains_seq(hay@, subs.deep_view()[k as int]));
            return true;
        }
        k += 1;
    }
    false
}

} // verus!
