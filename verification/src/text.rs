//! Small verified string utilities shared by the other modules.

use vstd::prelude::*;

verus! {

/// String equality for `&str`, stated over the views.
pub fn same_str(a: &str, b: &str) -> (r: bool)
    ensures
        r == (a@ == b@),
{
    let a_owned: String = a.to_owned();
    let b_owned: String = b.to_owned();
    a_owned == b_owned
}

/// Whether `pat` occurs in `s` starting at index `i`.
pub open spec fn occurs_at(s: Seq<char>, pat: Seq<char>, i: int) -> bool {
    0 <= i && i + pat.len() <= s.len() && s.subrange(i, i + pat.len()) == pat
}

/// Whether `pat` occurs anywhere in `s`.
pub open spec fn occurs(s: Seq<char>, pat: Seq<char>) -> bool {
    exists|i: int| occurs_at(s, pat, i)
}

/// The suffix of `s` that follows the last occurrence of `pat`, which is `s`
/// itself when `pat` never occurs.
pub open spec fn is_suffix_after_last(s: Seq<char>, pat: Seq<char>, r: Seq<char>) -> bool {
    if occurs(s, pat) {
        exists|i: int|
            occurs_at(s, pat, i) && r == s.subrange(i + pat.len(), s.len() as int) && (forall|
                j: int,
            |
                i < j ==> !occurs_at(s, pat, j))
    } else {
        r == s
    }
}

/// Appending one suffix to two distinct strings keeps them distinct.
pub proof fn lemma_append_same_suffix_distinct(a: Seq<char>, b: Seq<char>, t: Seq<char>)
    requires
        a != b,
    ensures
        a + t != b + t,
{
    if a + t == b + t {
        assert((a + t).len() == (b + t).len());
        assert(a.len() == b.len());
        assert(a =~= (a + t).subrange(0, a.len() as int));
        assert(b =~= (b + t).subrange(0, b.len() as int));
    }
}

/// Whether `pat` occurs in `s` at `i`, decided by comparing one character at a
/// time.
pub fn matches_at(s: &str, pat: &str, i: usize) -> (r: bool)
    requires
        i + pat@.len() <= s@.len(),
        s@.len() <= usize::MAX,
    ensures
        r == occurs_at(s@, pat@, i as int),
{
    let n: usize = pat.unicode_len();
    let mut k: usize = 0;
    while k < n
        invariant
            n == pat@.len(),
            i + n <= s@.len() <= usize::MAX,
            0 <= k <= n,
            forall|t: int| 0 <= t < k ==> s@[i + t] == pat@[t],
        decreases n - k,
    {
        if s.get_char(i + k) != pat.get_char(k) {
            proof {
                assert(s@.subrange(i as int, i + pat@.len())[k as int] != pat@[k as int]);
            }
            return false;
        }
        k = k + 1;
    }
    proof {
        assert(s@.subrange(i as int, i + pat@.len()) =~= pat@);
    }
    true
}

/// Whether `pat` occurs anywhere in `s`, decided by scanning every start
/// position.
pub fn contains_str(s: &str, pat: &str) -> (r: bool)
    ensures
        r == occurs(s@, pat@),
{
    let n: usize = s.unicode_len();
    let p: usize = pat.unicode_len();
    if p > n {
        proof {
            assert forall|i: int| !occurs_at(s@, pat@, i) by {}
        }
        return false;
    }
    if p == 0 {
        proof {
            assert(s@.subrange(0, 0) =~= pat@);
            assert(occurs_at(s@, pat@, 0));
        }
        return true;
    }
    let mut c: usize = 0;
    while c <= n - p
        invariant
            p == pat@.len(),
            n == s@.len() <= usize::MAX,
            1 <= p <= n,
            0 <= c <= n - p + 1,
            forall|j: int| 0 <= j < c ==> !occurs_at(s@, pat@, j),
        decreases n - p + 1 - c,
    {
        if matches_at(s, pat, c) {
            return true;
        }
        c = c + 1;
    }
    proof {
        assert forall|i: int| !occurs_at(s@, pat@, i) by {}
    }
    false
}

/// The suffix of `s` after the last occurrence of `pat`; `s` itself when `pat`
/// does not occur in `s`.
pub fn suffix_after_last(s: &str, pat: &str) -> (r: String)
    requires
        pat@.len() >= 1,
    ensures
        is_suffix_after_last(s@, pat@, r@),
{
    let n: usize = s.unicode_len();
    let p: usize = pat.unicode_len();
    if p > n {
        proof {
            assert forall|i: int| !occurs_at(s@, pat@, i) by {}
        }
        return s.to_owned();
    }
    // scan candidate start positions from the end of `s`
    let mut c: usize = n - p;
    loop
        invariant
            p == pat@.len(),
            n == s@.len(),
            1 <= p <= n,
            0 <= c <= n - p,
            forall|j: int| c < j ==> !occurs_at(s@, pat@, j),
        decreases c,
    {
        if matches_at(s, pat, c) {
            let r = s.substring_char(c + p, n).to_owned();
            proof {
                assert(occurs_at(s@, pat@, c as int));
                assert(occurs(s@, pat@));
            }
            return r;
        }
        if c == 0 {
            proof {
                assert forall|i: int| !occurs_at(s@, pat@, i) by {}
            }
            return s.to_owned();
        }
        c = c - 1;
    }
}

} // verus!
