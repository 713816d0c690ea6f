//! Measuring an image inside a probe.
//!
//! Images carry no header. An image is padded with zero bytes, so its end is
//! taken to be the first aligned window of `SENTINEL_LEN` zero bytes in the
//! probe. An image that itself contains such a window is cut short there, and
//! an image longer than the probe cannot be told from one that fills it: both
//! are limits of the format.

use vstd::prelude::*;
use crate::config::SENTINEL_LEN;
use crate::config::SHORT_IMAGE_LEN;
use crate::config::SHORT_PROBE_LEN;

verus! {

/// Every byte of `s` is zero.
pub open spec fn all_zeros(s: Seq<u8>) -> bool {
    forall|i: int| 0 <= i < s.len() ==> s[i] == 0
}

/// The `SENTINEL_LEN` bytes of `s` from offset `k` on exist and are all zero.
pub open spec fn zero_run_at(s: Seq<u8>, k: int) -> bool {
    &&& 0 <= k
    &&& k + SENTINEL_LEN <= s.len()
    &&& forall|j: int| k <= j < k + SENTINEL_LEN ==> s[j] == 0
}

/// An end-of-image window starts at offset `k` of `s`: an aligned run of
/// `SENTINEL_LEN` zero bytes.
pub open spec fn sentinel_at(s: Seq<u8>, k: int) -> bool {
    k % (SENTINEL_LEN as int) == 0 && zero_run_at(s, k)
}

/// The first end-of-image window of `s` starts at offset `k`.
pub open spec fn first_sentinel_at(s: Seq<u8>, k: int) -> bool {
    sentinel_at(s, k) && forall|j: int| 0 <= j < k ==> !sentinel_at(s, j)
}

/// `s` is a short probe whose upper half is zero.
pub open spec fn short_probe(s: Seq<u8>) -> bool {
    s.len() == SHORT_PROBE_LEN && s[2] == 0 && s[3] == 0
}

/// Length of the image at the start of probe `s`.
///
/// A short probe with a zero upper half holds `SHORT_IMAGE_LEN` bytes. Any
/// other probe holds the bytes before its first end-of-image window, or all
/// of its bytes if it has no such window.
pub open spec fn true_length(s: Seq<u8>) -> int {
    if short_probe(s) {
        SHORT_IMAGE_LEN as int
    } else if exists|k: int| first_sentinel_at(s, k) {
        choose|k: int| first_sentinel_at(s, k)
    } else {
        s.len() as int
    }
}

/// The image at the start of probe `s`.
pub open spec fn trim(s: Seq<u8>) -> Seq<u8> {
    s.take(true_length(s))
}

/// The first end-of-image window is unique.
pub proof fn lemma_first_sentinel_unique(s: Seq<u8>, a: int, b: int)
    requires
        first_sentinel_at(s, a),
        first_sentinel_at(s, b),
    ensures
        a == b,
{
    if a < b {
        assert(!sentinel_at(s, a));
    } else if b < a {
        assert(!sentinel_at(s, b));
    }
}

/// The measured length never exceeds the probe.
pub proof fn lemma_true_length_bounds(s: Seq<u8>)
    ensures
        0 <= true_length(s) <= s.len(),
{
    if !short_probe(s) && exists|k: int| first_sentinel_at(s, k) {
        let k = choose|k: int| first_sentinel_at(s, k);
        assert(sentinel_at(s, k));
    }
}

/// The image is empty exactly when the probe is empty or starts with an
/// end-of-image window.
pub proof fn lemma_true_length_zero(s: Seq<u8>)
    ensures
        true_length(s) == 0 <==> s.len() == 0 || sentinel_at(s, 0),
{
    if sentinel_at(s, 0) {
        assert(first_sentinel_at(s, 0));
        lemma_trim_at_first_sentinel(s, 0);
    } else if !short_probe(s) && exists|k: int| first_sentinel_at(s, k) {
        let k = choose|k: int| first_sentinel_at(s, k);
        assert(sentinel_at(s, k));
    }
}

/// A probe whose first end-of-image window starts at `k` holds exactly its
/// first `k` bytes, whatever follows the window.
pub proof fn lemma_trim_at_first_sentinel(s: Seq<u8>, k: int)
    requires
        first_sentinel_at(s, k),
    ensures
        true_length(s) == k,
        trim(s) == s.take(k),
{
    let c = choose|c: int| first_sentinel_at(s, c);
    lemma_first_sentinel_unique(s, c, k);
}

/// A probe without an end-of-image window, other than a short probe with a
/// zero upper half, is an image from its first byte to its last.
pub proof fn lemma_trim_without_sentinel(s: Seq<u8>)
    requires
        !short_probe(s),
        forall|k: int| !sentinel_at(s, k),
    ensures
        true_length(s) == s.len(),
        trim(s) == s,
{
    assert(s.take(s.len() as int) =~= s);
}

/// A short probe `[a, b, 0, 0]` holds the image `[a, b]`.
pub proof fn lemma_trim_short_probe(s: Seq<u8>)
    requires
        s.len() == SHORT_PROBE_LEN,
        s[2] == 0,
        s[3] == 0,
    ensures
        trim(s) == seq![s[0], s[1]],
{
    assert(s.take(2) =~= seq![s[0], s[1]]);
}

/// Measuring is idempotent: an image that was cut out of a probe is measured
/// as itself.
pub proof fn lemma_trim_idempotent(s: Seq<u8>)
    ensures
        trim(trim(s)) == trim(s),
{
    let t = trim(s);
    lemma_true_length_bounds(s);
    if short_probe(s) {
        assert(t.len() == 2);
        assert(forall|k: int| !sentinel_at(t, k));
        lemma_trim_without_sentinel(t);
    } else if exists|k: int| first_sentinel_at(s, k) {
        let k = choose|k: int| first_sentinel_at(s, k);
        assert(sentinel_at(s, k));
        assert(t.len() == k);
        assert(!short_probe(t));
        assert forall|j: int| !sentinel_at(t, j) by {
            if sentinel_at(t, j) {
                assert(j + SENTINEL_LEN <= k);
                assert forall|i: int| j <= i < j + SENTINEL_LEN implies s[i] == 0 by {
                    assert(t[i] == s[i]);
                }
                assert(sentinel_at(s, j));
            }
        }
        lemma_trim_without_sentinel(t);
    } else {
        assert(t =~= s);
    }
}

/// Tells whether every byte of `slice` is zero.
pub fn is_all_zeros(slice: &[u8]) -> (r: bool)
    ensures
        r == all_zeros(slice@),
{
    let n: usize = slice.len();
    let mut i: usize = 0;
    while i < n
        invariant
            n == slice@.len(),
            i <= n,
            forall|j: int| 0 <= j < i ==> slice@[j] == 0,
        decreases n - i,
    {
        if slice[i] != 0 {
            return false;
        }
        i += 1;
    }
    true
}

/// Tells whether the `SENTINEL_LEN` bytes of `code` from offset `k` on are
/// all zero.
fn window_is_zero(code: &[u8], k: usize) -> (r: bool)
    requires
        k + SENTINEL_LEN <= code@.len(),
    ensures
        r == zero_run_at(code@, k as int),
{
    let n: usize = code.len();
    let mut j: usize = 0;
    while j < SENTINEL_LEN
        invariant
            n == code@.len(),
            k + SENTINEL_LEN <= n,
            j <= SENTINEL_LEN,
            forall|i: int| k <= i < k + j ==> code@[i] == 0,
        decreases SENTINEL_LEN - j,
    {
        if code[k + j] != 0 {
            return false;
        }
        j += 1;
    }
    true
}

/// Cuts the image out of the probe `code`.
pub fn ensure_length(code: &[u8]) -> (r: &[u8])
    ensures
        r@ == trim(code@),
        r@.len() == true_length(code@),
{
    let n: usize = code.len();
    proof {
        lemma_true_length_bounds(code@);
    }
    if n == SHORT_PROBE_LEN && code[2] == 0 && code[3] == 0 {
        return &code[0..SHORT_IMAGE_LEN];
    }
    let mut k: usize = 0;
    while n - k >= SENTINEL_LEN
        invariant
            n == code@.len(),
            k <= n,
            k % SENTINEL_LEN == 0,
            forall|j: int| 0 <= j < k ==> !sentinel_at(code@, j),
        decreases n - k,
    {
        if window_is_zero(code, k) {
            proof {
                lemma_trim_at_first_sentinel(code@, k as int);
            }
            return &code[0..k];
        }
        proof {
            assert forall|j: int| 0 <= j < k + SENTINEL_LEN implies !sentinel_at(code@, j) by {
                if k < j {
                    assert(j % (SENTINEL_LEN as int) != 0);
                }
            }
        }
        k += SENTINEL_LEN;
    }
    proof {
        assert forall|j: int| !sentinel_at(code@, j) by {
            if sentinel_at(code@, j) {
                assert(j >= k);
                assert(j + SENTINEL_LEN <= n);
            }
        }
        lemma_trim_without_sentinel(code@);
    }
    code
}

} // verus!
