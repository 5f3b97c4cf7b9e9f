//! Substring search over `&str`, specified against the `Seq<char>` views.
//!
//! The redirect decoder and the email selector both need to locate fixed
//! patterns inside untrusted strings; everything here is stated in terms of
//! `occurs_at`, the one primitive notion of a pattern occurring at an index.

use vstd::prelude::*;

verus! {

/// `pat` occurs in `s` starting at index `i`.
pub open spec fn occurs_at(s: Seq<char>, pat: Seq<char>, i: int) -> bool {
    0 <= i && i + pat.len() <= s.len() && pat =~= s.subrange(i, i + pat.len() as int)
}

/// Index of the leftmost occurrence of `pat` in `s`, if there is one.
pub open spec fn find_first(s: Seq<char>, pat: Seq<char>) -> Option<int>
    decreases s.len(),
{
    if pat.len() > s.len() {
        None
    } else if pat =~= s.subrange(0, pat.len() as int) {
        Some(0)
    } else {
        match find_first(s.subrange(1, s.len() as int), pat) {
            Some(i) => Some(i + 1),
            None => None,
        }
    }
}

/// `find_first` returns the least index at which `pat` occurs, and `None`
/// exactly when `pat` occurs nowhere.
pub proof fn lemma_find_first(s: Seq<char>, pat: Seq<char>)
    ensures
        match find_first(s, pat) {
            Some(i) => occurs_at(s, pat, i) && (forall|j: int|
                0 <= j < i ==> !occurs_at(s, pat, j)),
            None => forall|j: int| !occurs_at(s, pat, j),
        },
    decreases s.len(),
{
    if pat.len() > s.len() {
    } else if pat =~= s.subrange(0, pat.len() as int) {
    } else {
        let t = s.subrange(1, s.len() as int);
        lemma_find_first(t, pat);
        assert(!occurs_at(s, pat, 0));
        match find_first(t, pat) {
            Some(k) => {
                assert(t.subrange(k, k + pat.len() as int) =~= s.subrange(
                    k + 1,
                    k + 1 + pat.len() as int,
                ));
                assert(occurs_at(s, pat, k + 1));
                assert forall|j: int| 0 <= j < k + 1 implies !occurs_at(s, pat, j) by {
                    if j >= 1 && occurs_at(s, pat, j) {
                        assert(s.subrange(j, j + pat.len() as int) =~= t.subrange(
                            j - 1,
                            j - 1 + pat.len() as int,
                        ));
                        assert(occurs_at(t, pat, j - 1));
                    }
                }
                assert(find_first(s, pat) == Some(k + 1));
            },
            None => {
                assert forall|j: int| !occurs_at(s, pat, j) by {
                    if j >= 1 && occurs_at(s, pat, j) {
                        assert(s.subrange(j, j + pat.len() as int) =~= t.subrange(
                            j - 1,
                            j - 1 + pat.len() as int,
                        ));
                        assert(occurs_at(t, pat, j - 1));
                    }
                }
            },
        }
    }
}

/// If `pat` occurs at `i` and nowhere earlier, then `i` is what `find_first`
/// returns.
pub proof fn lemma_find_first_at(s: Seq<char>, pat: Seq<char>, i: int)
    requires
        occurs_at(s, pat, i),
        forall|j: int| 0 <= j < i ==> !occurs_at(s, pat, j),
    ensures
        find_first(s, pat) == Some(i),
{
    lemma_find_first(s, pat);
    match find_first(s, pat) {
        Some(k) => {
            if k < i {
                assert(!occurs_at(s, pat, k));
            }
            if k > i {
                assert(!occurs_at(s, pat, i));
            }
        },
        None => {
            assert(!occurs_at(s, pat, i));
        },
    }
}

/// If `pat` occurs nowhere in `s`, `find_first` returns `None`.
pub proof fn lemma_find_first_none(s: Seq<char>, pat: Seq<char>)
    requires
        forall|j: int| !occurs_at(s, pat, j),
    ensures
        find_first(s, pat) is None,
{
    lemma_find_first(s, pat);
}

/// Does `pat` occur in `s` at index `i`? Decided by comparing characters.
pub fn matches_at(s: &str, i: usize, pat: &str) -> (r: bool)
    requires
        i + pat@.len() <= s@.len(),
        s@.len() <= usize::MAX,
    ensures
        r == occurs_at(s@, pat@, i as int),
{
    let m = pat.unicode_len();
    let mut j: usize = 0;
    while j < m
        invariant
            m == pat@.len(),
            i + m <= s@.len(),
            s@.len() <= usize::MAX,
            j <= m,
            forall|k: int| 0 <= k < j ==> s@[i + k] == pat@[k],
        decreases m - j,
    {
        let sc = s.get_char(i + j);
        let pc = pat.get_char(j);
        if sc != pc {
            proof {
                if occurs_at(s@, pat@, i as int) {
                    assert(pat@[j as int] == s@.subrange(i as int, i + pat@.len() as int)[
                        j as int
                    ]);
                }
            }
            return false;
        }
        j += 1;
    }
    proof {
        assert(pat@ =~= s@.subrange(i as int, i + pat@.len() as int));
    }
    true
}

/// Index of the leftmost occurrence of `pat` in `s`, searching left to right.
pub fn find_substring(s: &str, pat: &str) -> (r: Option<usize>)
    ensures
        match r {
            Some(i) => occurs_at(s@, pat@, i as int) && (forall|j: int|
                0 <= j < i ==> !occurs_at(s@, pat@, j)),
            None => forall|j: int| !occurs_at(s@, pat@, j),
        },
{
    let n = s.unicode_len();
    let m = pat.unicode_len();
    if m > n {
        return None;
    }
    let mut i: usize = 0;
    while i <= n - m
        invariant
            n == s@.len(),
            m == pat@.len(),
            m <= n,
            i <= n - m + 1,
            forall|j: int| 0 <= j < i ==> !occurs_at(s@, pat@, j),
        decreases n - m + 1 - i,
    {
        if matches_at(s, i, pat) {
            return Some(i);
        }
        i += 1;
    }
    None
}

/// Character-for-character string equality, stated over the views.
pub fn str_equal(a: &str, b: &str) -> (r: bool)
    ensures
        r == (a@ == b@),
{
    let n = a.unicode_len();
    let m = b.unicode_len();
    if n != m {
        return false;
    }
    let r = matches_at(a, 0, b);
    proof {
        if occurs_at(a@, b@, 0) {
            assert(a@ =~= a@.subrange(0, b@.len() as int));
        }
        if a@ == b@ {
            assert(b@ =~= a@.subrange(0, b@.len() as int));
        }
    }
    r
}

/// Does `s` end with `suffix`? Stated via `Seq::is_suffix_of`.
pub fn ends_with(s: &str, suffix: &str) -> (r: bool)
    ensures
        r == suffix@.is_suffix_of(s@),
{
    let n = s.unicode_len();
    let m = suffix.unicode_len();
    if m > n {
        return false;
    }
    let r = matches_at(s, n - m, suffix);
    proof {
        assert(occurs_at(s@, suffix@, n - m) == suffix@.is_suffix_of(s@));
    }
    r
}

} // verus!
