//! Substring matching on strings, the basis of sensor classification.

use vstd::prelude::*;

verus! {

/// The needle `n` occurs in the haystack `h` starting at character index `i`.
pub open spec fn match_at(h: Seq<char>, n: Seq<char>, i: int) -> bool {
    0 <= i && i + n.len() <= h.len() && h.subrange(i, i + n.len()) == n
}

/// The needle `n` occurs somewhere in the haystack `h`.
pub open spec fn contains_seq(h: Seq<char>, n: Seq<char>) -> bool {
    exists|i: int| match_at(h, n, i)
}

/// Compares the needle against the haystack window starting at `i`.
fn matches_at(h: &str, n: &str, i: usize) -> (r: bool)
    requires
        i + n@.len() <= h@.len(),
        h@.len() <= usize::MAX,
    ensures
        r == match_at(h@, n@, i as int),
{
    let n_len = n.unicode_len();
    let mut j: usize = 0;
    while j < n_len
        invariant
            n_len == n@.len(),
            i + n_len <= h@.len() <= usize::MAX,
            j <= n_len,
            forall|k: int| 0 <= k < j ==> h@[i + k] == n@[k],
        decreases n_len - j,
    {
        if h.get_char(i + j) != n.get_char(j) {
            proof {
                assert(h@.subrange(i as int, i + n@.len())[j as int] == h@[i + j]);
            }
            return false;
        }
        j += 1;
    }
    proof {
        assert(h@.subrange(i as int, i + n@.len()) =~= n@);
    }
    true
}

/// Whether `h` contains `n` as a contiguous substring of characters,
/// as `str::contains` reports it.
pub fn str_contains(h: &str, n: &str) -> (r: bool)
    ensures
        r == contains_seq(h@, n@),
{
    let h_len = h.unicode_len();
    let n_len = n.unicode_len();
    if n_len == 0 {
        proof {
            assert(h@.subrange(0, 0) =~= n@);
            assert(match_at(h@, n@, 0));
        }
        return true;
    }
    if n_len > h_len {
        proof {
            assert forall|k: int| !match_at(h@, n@, k) by {
                if 0 <= k {
                    assert(k + n@.len() > h@.len());
                }
            }
        }
        return false;
    }
    let mut i: usize = 0;
    while i <= h_len - n_len
        invariant
            h_len == h@.len(),
            n_len == n@.len(),
            1 <= n_len <= h_len,
            i <= h_len - n_len + 1,
            forall|k: int| 0 <= k < i ==> !match_at(h@, n@, k),
        decreases h_len - n_len - i + 1,
    {
        if matches_at(h, n, i) {
            proof {
                assert(contains_seq(h@, n@)) by {
                    assert(match_at(h@, n@, i as int));
                }
            }
            return true;
        }
        i += 1;
    }
    proof {
        assert forall|k: int| !match_at(h@, n@, k) by {
            if 0 <= k && k + n@.len() <= h@.len() {
                assert(k < i);
            }
        }
    }
    false
}

} // verus!
