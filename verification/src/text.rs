//! Verified text matching: prefix tests, substring search, and equality,
//! used by the command dispatcher and the sender-filtering policy.

use vstd::prelude::*;

verus! {

/// `p` is a prefix of `s`.
pub open spec fn text_has_prefix(s: Seq<char>, p: Seq<char>) -> bool {
    p.len() <= s.len() && forall|i: int| 0 <= i < p.len() ==> s[i] == p[i]
}

/// `n` occurs in `h` starting at position `j`.
pub open spec fn text_match_at(h: Seq<char>, n: Seq<char>, j: int) -> bool {
    0 <= j && j + n.len() <= h.len() && forall|i: int| 0 <= i < n.len() ==> h[j + i] == n[i]
}

/// `n` occurs somewhere in `h`.
pub open spec fn text_contains(h: Seq<char>, n: Seq<char>) -> bool {
    exists|j: int| text_match_at(h, n, j)
}

/// Whether `n` occurs in `h` starting at position `j`.
fn match_at(h: &str, n: &str, j: usize) -> (r: bool)
    requires
        j + n@.len() <= h@.len(),
        h@.len() <= usize::MAX,
    ensures
        r == text_match_at(h@, n@, j as int),
{
    let n_len = n.unicode_len();
    let mut i: usize = 0;
    while i < n_len
        invariant
            n_len == n@.len(),
            j + n@.len() <= h@.len(),
            h@.len() <= usize::MAX,
            0 <= i <= n_len,
            forall|k: int| 0 <= k < i ==> h@[j + k] == n@[k],
        decreases n_len - i,
    {
        if h.get_char(j + i) != n.get_char(i) {
            assert(!text_match_at(h@, n@, j as int));
            return false;
        }
        i = i + 1;
    }
    true
}

/// Whether `p` is a prefix of `s`, as in the chat-command check.
pub fn str_starts_with(s: &str, p: &str) -> (r: bool)
    ensures
        r == text_has_prefix(s@, p@),
{
    let p_len = p.unicode_len();
    if p_len > s.unicode_len() {
        return false;
    }
    match_at(s, p, 0)
}

/// Whether `n` occurs anywhere in `h` (naive substring search).
pub fn str_contains(h: &str, n: &str) -> (r: bool)
    ensures
        r == text_contains(h@, n@),
{
    let h_len = h.unicode_len();
    let n_len = n.unicode_len();
    if n_len > h_len {
        assert(forall|j: int| !text_match_at(h@, n@, j));
        return false;
    }
    let last = h_len - n_len;
    let mut j: usize = 0;
    while j <= last
        invariant
            h_len == h@.len(),
            n_len == n@.len(),
            last == h_len - n_len,
            0 <= j <= last + 1,
            forall|k: int| 0 <= k < j ==> !text_match_at(h@, n@, k),
        decreases last + 1 - j,
    {
        if match_at(h, n, j) {
            return true;
        }
        j = j + 1;
    }
    assert(forall|k: int| k > last ==> !text_match_at(h@, n@, k));
    false
}

/// Whether two strings hold the same characters.
pub fn str_eq(a: &str, b: &str) -> (r: bool)
    ensures
        r == (a@ == b@),
{
    if a.unicode_len() != b.unicode_len() {
        return false;
    }
    let r = match_at(a, b, 0);
    proof {
        if r {
            assert(a@ =~= b@);
        }
    }
    r
}

} // verus!
