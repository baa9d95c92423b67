//! Lexicographic ordering of canonical timestamp text.
//!
//! All event-time comparisons in this crate are plain string comparisons:
//! they order timestamps chronologically only when every compared value uses
//! the fixed-width UTC form `YYYYMMDDTHHMMSSZ`. Floating-time or
//! variable-width values sort as text, not as times; that is a documented
//! constraint of the feed format, not something this crate corrects.

use vstd::prelude::*;

verus! {

/// Three-way lexicographic comparison of two character sequences by code
/// point: negative when `a` sorts strictly before `b`, `0` when they are the
/// same sequence, positive when `a` sorts strictly after `b`. A strict prefix
/// sorts before the longer sequence.
pub open spec fn lex_cmp(a: Seq<char>, b: Seq<char>) -> int
    decreases a.len(),
{
    if a.len() == 0 && b.len() == 0 {
        0
    } else if a.len() == 0 {
        -1
    } else if b.len() == 0 {
        1
    } else if a[0] < b[0] {
        -1
    } else if a[0] > b[0] {
        1
    } else {
        lex_cmp(a.drop_first(), b.drop_first())
    }
}

/// `a` sorts strictly before `b`.
pub open spec fn lex_lt(a: Seq<char>, b: Seq<char>) -> bool {
    lex_cmp(a, b) < 0
}

/// `a` sorts before `b` or equals it.
pub open spec fn lex_le(a: Seq<char>, b: Seq<char>) -> bool {
    lex_cmp(a, b) <= 0
}

/// Swapping the arguments of `lex_cmp` negates its result.
pub proof fn lemma_lex_cmp_antisym(a: Seq<char>, b: Seq<char>)
    ensures
        lex_cmp(a, b) == -lex_cmp(b, a),
    decreases a.len(),
{
    if a.len() != 0 && b.len() != 0 && a[0] == b[0] {
        lemma_lex_cmp_antisym(a.drop_first(), b.drop_first());
    }
}

/// The lexicographic order is transitive.
pub proof fn lemma_lex_le_trans(a: Seq<char>, b: Seq<char>, c: Seq<char>)
    requires
        lex_cmp(a, b) <= 0,
        lex_cmp(b, c) <= 0,
    ensures
        lex_cmp(a, c) <= 0,
    decreases a.len(),
{
    if a.len() != 0 && b.len() != 0 && c.len() != 0 && a[0] == b[0] && b[0] == c[0] {
        lemma_lex_le_trans(a.drop_first(), b.drop_first(), c.drop_first());
    }
}

/// Sequences that compare equal under `lex_cmp` are equal.
pub proof fn lemma_lex_cmp_eq(a: Seq<char>, b: Seq<char>)
    requires
        lex_cmp(a, b) == 0,
    ensures
        a == b,
    decreases a.len(),
{
    if a.len() == 0 {
        assert(b.len() == 0);
        assert(a =~= b);
    } else {
        assert(b.len() != 0);
        assert(a[0] == b[0]);
        lemma_lex_cmp_eq(a.drop_first(), b.drop_first());
        assert(a.len() == b.len());
        assert forall|i: int| 0 <= i < a.len() implies a[i] == b[i] by {
            if i != 0 {
                assert(a.drop_first()[i - 1] == b.drop_first()[i - 1]);
            }
        }
        assert(a =~= b);
    }
}

/// `a` sorts before `b` or `b` sorts before `a`; both hold only on equals.
pub proof fn lemma_lex_le_total(a: Seq<char>, b: Seq<char>)
    ensures
        lex_le(a, b) || lex_le(b, a),
{
    lemma_lex_cmp_antisym(a, b);
}

/// Compares two strings in the order of `lex_cmp` over their characters,
/// returning whether `a` sorts strictly before `b`.
pub fn str_lex_lt(a: &str, b: &str) -> (r: bool)
    ensures
        r == lex_lt(a@, b@),
{
    let le = str_lex_le(b, a);
    proof {
        lemma_lex_cmp_antisym(a@, b@);
    }
    !le
}

/// Compares two strings in the order of `lex_cmp` over their characters,
/// returning whether `a` sorts before `b` or equals it.
pub fn str_lex_le(a: &str, b: &str) -> (r: bool)
    ensures
        r == lex_le(a@, b@),
{
    let a_len = a.unicode_len();
    let b_len = b.unicode_len();
    let mut i: usize = 0;
    proof {
        assert(a@.skip(0) =~= a@);
        assert(b@.skip(0) =~= b@);
    }
    while i < a_len && i < b_len
        invariant
            a_len == a@.len(),
            b_len == b@.len(),
            0 <= i <= a_len,
            0 <= i <= b_len,
            lex_cmp(a@, b@) == lex_cmp(a@.skip(i as int), b@.skip(i as int)),
        decreases a_len - i,
    {
        let ca = a.get_char(i);
        let cb = b.get_char(i);
        proof {
            assert(a@.skip(i as int)[0] == a@[i as int]);
            assert(b@.skip(i as int)[0] == b@[i as int]);
            assert(a@.skip(i as int).drop_first() =~= a@.skip(i + 1));
            assert(b@.skip(i as int).drop_first() =~= b@.skip(i + 1));
        }
        if ca < cb {
            return true;
        }
        if ca > cb {
            return false;
        }
        i = i + 1;
    }
    proof {
        if i >= a_len {
            assert(a@.skip(i as int).len() == 0);
        } else {
            assert(b@.skip(i as int).len() == 0);
            assert(a@.skip(i as int).len() > 0);
        }
    }
    a_len <= b_len
}

} // verus!
