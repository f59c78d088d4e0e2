//! Small verified text utilities: string equality and substring search,
//! used for palette-name lookup and palette-file classification.

use vstd::prelude::*;
use vstd::string::StrSliceExecFns;

verus! {

/// True when `pat` occurs in `s` starting at character offset `i`.
pub open spec fn matches_at(s: Seq<char>, pat: Seq<char>, i: int) -> bool {
    &&& 0 <= i
    &&& i + pat.len() <= s.len()
    &&& s.subrange(i, i + pat.len() as int) == pat
}

/// True when `pat` occurs somewhere in `s`.
pub open spec fn has_substring(s: Seq<char>, pat: Seq<char>) -> bool {
    exists|i: int| matches_at(s, pat, i)
}

/// Character-by-character string equality.
pub fn str_eq(a: &str, b: &str) -> (r: bool)
    ensures
        r == (a@ == b@),
{
    let alen = a.unicode_len();
    let blen = b.unicode_len();
    if alen != blen {
        return false;
    }
    let mut i: usize = 0;
    while i < alen
        invariant
            alen == a@.len(),
            blen == b@.len(),
            alen == blen,
            i <= alen,
            forall|j: int| 0 <= j < i ==> a@[j] == b@[j],
        decreases alen - i,
    {
        if a.get_char(i) != b.get_char(i) {
            return false;
        }
        i += 1;
    }
    proof {
        assert(a@ =~= b@);
    }
    true
}

/// Whether `pat` occurs in `s` at offset `i`.
fn matches_here(s: &str, pat: &str, i: usize, slen: usize) -> (r: bool)
    requires
        slen == s@.len(),
        i + pat@.len() <= s@.len(),
    ensures
        r == matches_at(s@, pat@, i as int),
{
    let plen = pat.unicode_len();
    let mut j: usize = 0;
    while j < plen
        invariant
            plen == pat@.len(),
            slen == s@.len(),
            i + plen <= slen,
            j <= plen,
            forall|k: int| 0 <= k < j ==> s@[i + k] == pat@[k],
        decreases plen - j,
    {
        if s.get_char(i + j) != pat.get_char(j) {
            proof {
                assert(s@.subrange(i as int, i + pat@.len() as int)[j as int] == s@[i + j]);
            }
            return false;
        }
        j += 1;
    }
    proof {
        assert(s@.subrange(i as int, i + pat@.len() as int) =~= pat@);
    }
    true
}

/// Substring search by scanning every candidate offset.
pub fn contains_sub(s: &str, pat: &str) -> (r: bool)
    ensures
        r == has_substring(s@, pat@),
{
    let slen = s.unicode_len();
    let plen = pat.unicode_len();
    if plen > slen {
        return false;
    }
    if plen == 0 {
        proof {
            assert(s@.subrange(0, 0) =~= pat@);
            assert(matches_at(s@, pat@, 0));
        }
        return true;
    }
    let mut i: usize = 0;
    while i <= slen - plen
        invariant
            slen == s@.len(),
            plen == pat@.len(),
            0 < plen <= slen,
            i <= slen - plen + 1,
            forall|k: int| 0 <= k < i ==> !matches_at(s@, pat@, k),
        decreases slen - plen - i + 1,
    {
        if matches_here(s, pat, i, slen) {
            return true;
        }
        i += 1;
    }
    false
}

} // verus!
