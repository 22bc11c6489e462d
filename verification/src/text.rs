//! Substring search over character sequences.
//!
//! The log scanner needs three questions answered about a line: does it
//! contain a marker, where is the last occurrence of a marker, and does a file
//! name start or end with a fixed piece.  All four are defined here over
//! `Seq<char>` and implemented over `&str`.

use vstd::prelude::*;
use vstd::string::StrSliceExecFns;

verus! {

/// The pattern `p` occurs in `s` at position `i`.
pub open spec fn match_at(s: Seq<char>, p: Seq<char>, i: int) -> bool {
    0 <= i && i + p.len() <= s.len() && s.subrange(i, i + p.len() as int) == p
}

/// The pattern `p` occurs somewhere in `s`.
pub open spec fn contains_seq(s: Seq<char>, p: Seq<char>) -> bool {
    exists|i: int| match_at(s, p, i)
}

/// The largest position below `n` at which `p` occurs in `s`, or `-1`.
pub open spec fn last_match_before(s: Seq<char>, p: Seq<char>, n: int) -> int
    decreases n,
{
    if n <= 0 {
        -1
    } else if match_at(s, p, n - 1) {
        n - 1
    } else {
        last_match_before(s, p, n - 1)
    }
}

/// The largest position at which `p` occurs in `s`, or `-1`.
pub open spec fn last_match(s: Seq<char>, p: Seq<char>) -> int {
    last_match_before(s, p, s.len() - p.len() + 1)
}

/// `s` begins with `p`.
pub open spec fn starts_with_seq(s: Seq<char>, p: Seq<char>) -> bool {
    match_at(s, p, 0)
}

/// `s` ends with `p`.
pub open spec fn ends_with_seq(s: Seq<char>, p: Seq<char>) -> bool {
    match_at(s, p, s.len() - p.len())
}

proof fn lemma_last_match_before_unique(s: Seq<char>, p: Seq<char>, i: int, n: int)
    requires
        match_at(s, p, i),
        forall|j: int| j > i ==> !match_at(s, p, j),
        i < n,
    ensures
        last_match_before(s, p, n) == i,
    decreases n,
{
    if n - 1 > i {
        assert(!match_at(s, p, n - 1));
        lemma_last_match_before_unique(s, p, i, n - 1);
    }
}

/// `last_match` finds the last occurrence: any position that is an occurrence
/// with none after it is the one.
pub proof fn lemma_last_match_unique(s: Seq<char>, p: Seq<char>, i: int)
    requires
        match_at(s, p, i),
        forall|j: int| j > i ==> !match_at(s, p, j),
    ensures
        last_match(s, p) == i,
{
    lemma_last_match_before_unique(s, p, i, s.len() - p.len() + 1);
}

/// Whether `p` occurs in `s` at position `i`.
fn matches_at(s: &str, p: &str, i: usize) -> (r: bool)
    requires
        i + p@.len() <= s@.len(),
    ensures
        r == match_at(s@, p@, i as int),
{
    let n = s.unicode_len();
    let m = p.unicode_len();
    let mut k: usize = 0;
    while k < m
        invariant
            n == s@.len(),
            m == p@.len(),
            i + m <= s@.len(),
            k <= m,
            forall|t: int| 0 <= t < k ==> s@[i + t] == p@[t],
        decreases m - k,
    {
        if s.get_char(i + k) != p.get_char(k) {
            assert(!match_at(s@, p@, i as int)) by {
                if s@.subrange(i as int, i + m) == p@ {
                    assert(s@.subrange(i as int, i + m)[k as int] == s@[i + k]);
                }
            }
            return false;
        }
        k += 1;
    }
    assert(s@.subrange(i as int, i + m) =~= p@);
    true
}

/// Whether `p` occurs anywhere in `s`.
pub fn contains_str(s: &str, p: &str) -> (r: bool)
    ensures
        r == contains_seq(s@, p@),
{
    let n = s.unicode_len();
    let m = p.unicode_len();
    if m > n {
        assert(forall|i: int| match_at(s@, p@, i) ==> i + m <= n && 0 <= i);
        return false;
    }
    if m == 0 {
        assert(match_at(s@, p@, 0)) by {
            assert(s@.subrange(0, 0) =~= p@);
        }
        return true;
    }
    let mut i: usize = 0;
    while i <= n - m
        invariant
            n == s@.len(),
            m == p@.len(),
            0 < m <= n,
            i <= n - m + 1,
            forall|j: int| 0 <= j < i ==> !match_at(s@, p@, j),
        decreases n - i,
    {
        if matches_at(s, p, i) {
            return true;
        }
        i += 1;
    }
    assert(forall|j: int| match_at(s@, p@, j) ==> 0 <= j <= n - m);
    false
}

/// The position of the last occurrence of `p` in `s`, if there is one.
pub fn rfind_str(s: &str, p: &str) -> (r: Option<usize>)
    ensures
        match r {
            Some(i) => i == last_match(s@, p@) && match_at(s@, p@, i as int),
            None => !contains_seq(s@, p@),
        },
{
    let n = s.unicode_len();
    let m = p.unicode_len();
    if m > n {
        assert(forall|i: int| match_at(s@, p@, i) ==> i + m <= n && 0 <= i);
        return None;
    }
    if m == 0 {
        assert(match_at(s@, p@, n as int)) by {
            assert(s@.subrange(n as int, n as int) =~= p@);
        }
        proof {
            lemma_last_match_unique(s@, p@, n as int);
        }
        return Some(n);
    }
    let mut i: usize = n - m + 1;
    while i > 0
        invariant
            n == s@.len(),
            m == p@.len(),
            m <= n,
            i <= n - m + 1,
            forall|j: int| i <= j ==> !match_at(s@, p@, j),
        decreases i,
    {
        i -= 1;
        if matches_at(s, p, i) {
            proof {
                lemma_last_match_unique(s@, p@, i as int);
            }
            return Some(i);
        }
    }
    None
}

/// `s` begins with `p`.
pub fn starts_with_str(s: &str, p: &str) -> (r: bool)
    ensures
        r == starts_with_seq(s@, p@),
{
    let n = s.unicode_len();
    let m = p.unicode_len();
    if m > n {
        return false;
    }
    matches_at(s, p, 0)
}

/// `s` ends with `p`.
pub fn ends_with_str(s: &str, p: &str) -> (r: bool)
    ensures
        r == ends_with_seq(s@, p@),
{
    let n = s.unicode_len();
    let m = p.unicode_len();
    if m > n {
        assert(s@.len() - p@.len() < 0);
        return false;
    }
    matches_at(s, p, n - m)
}

} // verus!
