//! Null-terminated buffers: where the first terminator stands, and what a
//! buffer holds up to it.

use vstd::prelude::*;

verus! {

/// No element of `s` is the terminator.
pub open spec fn nul_free<T>(s: Seq<T>, nul: T) -> bool {
    forall|i: int| 0 <= i < s.len() ==> s[i] != nul
}

/// Some element of `s` is the terminator.
pub open spec fn has_nul<T>(s: Seq<T>, nul: T) -> bool {
    exists|i: int| 0 <= i < s.len() && s[i] == nul
}

/// The number of elements before the first terminator; the whole length where
/// there is none.
pub open spec fn c_len<T>(s: Seq<T>, nul: T) -> nat
    decreases s.len(),
{
    if s.len() == 0 || s[0] == nul {
        0
    } else {
        1 + c_len(s.drop_first(), nul)
    }
}

/// `s` ends in a terminator and holds no other.
pub open spec fn is_c_string<T>(s: Seq<T>, nul: T) -> bool {
    &&& s.len() >= 1
    &&& s.last() == nul
    &&& nul_free(s.drop_last(), nul)
}

/// What `s` holds before its first terminator, followed by one terminator.
pub open spec fn c_string<T>(s: Seq<T>, nul: T) -> Seq<T> {
    s.take(c_len(s, nul) as int).push(nul)
}

/// `c_len` is the one position that has no terminator before it and, unless
/// it is the end, a terminator at it.
pub proof fn lemma_c_len_unique<T>(s: Seq<T>, nul: T, k: int)
    requires
        0 <= k <= s.len(),
        nul_free(s.take(k), nul),
        k < s.len() ==> s[k] == nul,
    ensures
        c_len(s, nul) == k,
    decreases k,
{
    if k == 0 {
    } else {
        assert(s.take(k)[0] == s[0]);
        let t = s.drop_first();
        let head = t.take(k - 1);
        assert forall|i: int| 0 <= i < k - 1 implies #[trigger] head[i] != nul by {
            assert(head[i] == s.take(k)[i + 1]);
        }
        lemma_c_len_unique(t, nul, k - 1);
    }
}

/// `c_len` stays within the buffer, has no terminator before it and, unless
/// it is the end, a terminator at it.
pub proof fn lemma_c_len_bounds<T>(s: Seq<T>, nul: T)
    ensures
        c_len(s, nul) <= s.len(),
        nul_free(s.take(c_len(s, nul) as int), nul),
        c_len(s, nul) < s.len() ==> s[c_len(s, nul) as int] == nul,
        has_nul(s, nul) <==> c_len(s, nul) < s.len(),
    decreases s.len(),
{
    if s.len() == 0 || s[0] == nul {
        if s.len() > 0 {
            assert(0 <= 0 < s.len() && s[0] == nul);
        }
    } else {
        let t = s.drop_first();
        lemma_c_len_bounds(t, nul);
        let k = c_len(s, nul) as int;
        let head = s.take(k);
        assert forall|i: int| 0 <= i < k implies #[trigger] head[i] != nul by {
            if i > 0 {
                assert(head[i] == t.take(k - 1)[i - 1]);
            }
        }
        if has_nul(s, nul) {
            let i = choose|i: int| 0 <= i < s.len() && s[i] == nul;
            assert(t[i - 1] == nul);
        }
        if has_nul(t, nul) {
            let i = choose|i: int| 0 <= i < t.len() && t[i] == nul;
            assert(s[i + 1] == nul);
        }
    }
}

/// A string cut at its first terminator is null-terminated with no
/// terminator inside, whatever the buffer held.
pub proof fn lemma_c_string_is_c_string<T>(s: Seq<T>, nul: T)
    ensures
        is_c_string(c_string(s, nul), nul),
        c_string(s, nul).drop_last() == s.take(c_len(s, nul) as int),
{
    lemma_c_len_bounds(s, nul);
    let k = c_len(s, nul) as int;
    assert(c_string(s, nul).drop_last() =~= s.take(k));
}

/// Cutting changes nothing in a buffer that is null-terminated with no
/// terminator inside.
pub proof fn lemma_c_string_fixed<T>(s: Seq<T>, nul: T)
    requires
        is_c_string(s, nul),
    ensures
        c_string(s, nul) == s,
        c_len(s, nul) == s.len() - 1,
{
    let k = s.len() - 1;
    assert(s.take(k) =~= s.drop_last());
    lemma_c_len_unique(s, nul, k);
    assert(c_string(s, nul) =~= s);
}

/// Counts the bytes before the first terminator among the first `max` bytes
/// of `s`, and stops at the end of `s` where no terminator comes first.
pub fn strnlen(s: &[u8], max: usize) -> (len: usize)
    ensures
        len == if c_len(s@, 0u8) <= max {
            c_len(s@, 0u8)
        } else {
            max as nat
        },
{
    let n: usize = s.len();
    let limit: usize = if max < n {
        max
    } else {
        n
    };
    let mut i: usize = 0;
    while i < limit && s[i] != 0
        invariant
            0 <= i <= limit <= n,
            n == s@.len(),
            nul_free(s@.take(i as int), 0u8),
        decreases limit - i,
    {
        i += 1;
        proof {
            let head = s@.take(i as int);
            assert forall|j: int| 0 <= j < i implies #[trigger] head[j] != 0u8 by {
                if j < i - 1 {
                    assert(s@.take(i - 1)[j] == s@[j]);
                }
            }
        }
    }
    proof {
        lemma_c_len_bounds(s@, 0u8);
        if i < limit {
            lemma_c_len_unique(s@, 0u8, i as int);
        } else {
            let k = c_len(s@, 0u8) as int;
            if k < i {
                assert(s@.take(i as int)[k] == s@[k]);
            }
        }
    }
    i
}

/// Counts the bytes before the first terminator of `s`.
pub fn strlen(s: &[u8]) -> (len: usize)
    ensures
        len == c_len(s@, 0u8),
{
    proof {
        lemma_c_len_bounds(s@, 0u8);
    }
    strnlen(s, s.len())
}

/// Counts the units before the first terminator among the first `max` units
/// of `s`, and stops at the end of `s` where no terminator comes first.
pub fn wcsnlen(s: &[u16], max: usize) -> (len: usize)
    ensures
        len == if c_len(s@, 0u16) <= max {
            c_len(s@, 0u16)
        } else {
            max as nat
        },
{
    let n: usize = s.len();
    let limit: usize = if max < n {
        max
    } else {
        n
    };
    let mut i: usize = 0;
    while i < limit && s[i] != 0
        invariant
            0 <= i <= limit <= n,
            n == s@.len(),
            nul_free(s@.take(i as int), 0u16),
        decreases limit - i,
    {
        i += 1;
        proof {
            let head = s@.take(i as int);
            assert forall|j: int| 0 <= j < i implies #[trigger] head[j] != 0u16 by {
                if j < i - 1 {
                    assert(s@.take(i - 1)[j] == s@[j]);
                }
            }
        }
    }
    proof {
        lemma_c_len_bounds(s@, 0u16);
        if i < limit {
            lemma_c_len_unique(s@, 0u16, i as int);
        } else {
            let k = c_len(s@, 0u16) as int;
            if k < i {
                assert(s@.take(i as int)[k] == s@[k]);
            }
        }
    }
    i
}

/// Counts the units before the first terminator of `s`.
pub fn wcslen(s: &[u16]) -> (len: usize)
    ensures
        len == c_len(s@, 0u16),
{
    proof {
        lemma_c_len_bounds(s@, 0u16);
    }
    wcsnlen(s, s.len())
}

} // verus!
