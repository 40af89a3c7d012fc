//! Substring matching on character sequences.
//!
//! Every classification rule of the monitor is a case-sensitive
//! substring test of a process name or command line against a small
//! list of patterns; this module gives those tests their meaning.

use vstd::prelude::*;

verus! {

/// `needle` occurs in `hay` as a contiguous run of characters.
pub open spec fn contains_seq(hay: Seq<char>, needle: Seq<char>) -> bool {
    exists|i: int|
        0 <= i && i + needle.len() <= hay.len() && #[trigger] hay.subrange(
            i,
            i + needle.len() as int,
        ) == needle
}

/// Some pattern of `pats` occurs in `name` or in `cmd`.
pub open spec fn matches_any(name: Seq<char>, cmd: Seq<char>, pats: Seq<Seq<char>>) -> bool {
    exists|i: int|
        0 <= i < pats.len() && (contains_seq(name, pats[i]) || contains_seq(cmd, pats[i]))
}

/// Some pattern of `pats` occurs in `name`.
pub open spec fn name_matches_any(name: Seq<char>, pats: Seq<Seq<char>>) -> bool {
    exists|i: int| 0 <= i < pats.len() && contains_seq(name, pats[i])
}

/// Character-wise substring search.
pub fn str_contains(hay: &str, needle: &str) -> (r: bool)
    ensures
        r == contains_seq(hay@, needle@),
{
    let n = hay.unicode_len();
    let m = needle.unicode_len();
    if m > n {
        return false;
    }
    if m == 0 {
        proof {
            assert(hay@.subrange(0, 0 + needle@.len() as int) =~= needle@);
        }
        return true;
    }
    let mut i: usize = 0;
    while i <= n - m
        invariant
            0 < m <= n,
            n == hay@.len(),
            m == needle@.len(),
            i <= n - m + 1,
            forall|k: int| 0 <= k < i ==> #[trigger] hay@.subrange(k, k + m) != needle@,
        decreases n - m + 1 - i,
    {
        let mut j: usize = 0;
        let mut mismatch = false;
        while !mismatch && j < m
            invariant
                0 < m <= n,
                n == hay@.len(),
                m == needle@.len(),
                i <= n - m,
                j <= m,
                !mismatch ==> forall|k: int| 0 <= k < j ==> hay@[i + k] == needle@[k],
                mismatch ==> hay@.subrange(i as int, i + m) != needle@,
            decreases m - j, (if mismatch { 0int } else { 1int }),
        {
            let c = hay.get_char(i + j);
            let d = needle.get_char(j);
            if c != d {
                proof {
                    assert(hay@.subrange(i as int, i + m)[j as int] == hay@[i + j]);
                }
                mismatch = true;
            } else {
                j = j + 1;
            }
        }
        if !mismatch {
            proof {
                assert(hay@.subrange(i as int, i + m) =~= needle@);
            }
            return true;
        }
        i = i + 1;
    }
    proof {
        assert forall|k: int|
            0 <= k && k + needle@.len() <= hay@.len() implies #[trigger] hay@.subrange(
            k,
            k + needle@.len() as int,
        ) != needle@ by {
            assert(k < i);
        }
    }
    false
}

/// Whether some pattern of `pats` occurs in `name` or in `cmd`.
pub fn any_pattern_matches(name: &str, cmd: &str, pats: &Vec<String>) -> (r: bool)
    ensures
        r == matches_any(name@, cmd@, pats.deep_view()),
{
    let mut i: usize = 0;
    while i < pats.len()
        invariant
            i <= pats@.len(),
            forall|k: int|
                0 <= k < i ==> !contains_seq(name@, #[trigger] pats.deep_view()[k])
                    && !contains_seq(cmd@, pats.deep_view()[k]),
        decreases pats@.len() - i,
    {
        let p = pats[i].as_str();
        if str_contains(name, p) || str_contains(cmd, p) {
            proof {
                assert(pats.deep_view()[i as int] == pats@[i as int]@);
            }
            return true;
        }
        proof {
            assert(pats.deep_view()[i as int] == pats@[i as int]@);
        }
        i = i + 1;
    }
    false
}

/// Whether some pattern of `pats` occurs in `name`.
pub fn any_name_pattern_matches(name: &str, pats: &Vec<String>) -> (r: bool)
    ensures
        r == name_matches_any(name@, pats.deep_view()),
{
    let mut i: usize = 0;
    while i < pats.len()
        invariant
            i <= pats@.len(),
            forall|k: int| 0 <= k < i ==> !contains_seq(name@, #[trigger] pats.deep_view()[k]),
        decreases pats@.len() - i,
    {
        if str_contains(name, pats[i].as_str()) {
            proof {
                assert(pats.deep_view()[i as int] == pats@[i as int]@);
            }
            return true;
        }
        proof {
            assert(pats.deep_view()[i as int] == pats@[i as int]@);
        }
        i = i + 1;
    }
    false
}

} // verus!
