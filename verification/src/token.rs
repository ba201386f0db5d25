//! Extraction of the first token of an owned byte buffer.
//!
//! A buffer is an owned, mutable, growable sequence of bytes interpreted as
//! text. The operations here either derive a plain scalar offset from the
//! buffer, which outlives the buffer freely, or a non-owning view into its
//! storage, whose lifetime is tied to the buffer: the borrow checker forbids
//! every mutation of the buffer while such a view is alive.

use vstd::prelude::*;
use vstd::slice::slice_subrange;

verus! {

/// The delimiter that separates tokens: a single space byte.
pub const SPACE: u8 = 32;

/// Holds exactly when `r` is the offset of the first space byte of `s`, or
/// `s.len()` when `s` holds no space byte (the sentinel meaning the whole
/// buffer is one token).
pub open spec fn is_first_space(s: Seq<u8>, r: int) -> bool {
    &&& 0 <= r <= s.len()
    &&& forall|j: int| 0 <= j < r ==> s[j] != SPACE
    &&& r < s.len() ==> s[r] == SPACE
}

/// Scans the buffer's bytes left to right and returns the byte offset of the
/// first space byte; when no space occurs, returns the buffer's total length.
/// The buffer is not mutated and the result is a plain scalar.
pub fn first_word(s: &Vec<u8>) -> (r: usize)
    ensures
        is_first_space(s@, r as int),
{
    let n: usize = s.len();
    let mut i: usize = 0;
    while i < n
        invariant
            i <= n,
            n == s@.len(),
            forall|j: int| 0 <= j < i ==> s@[j] != SPACE,
        decreases n - i,
    {
        if s[i] == SPACE {
            return i;
        }
        i = i + 1;
    }
    i
}

/// Returns the first token: a borrowed view of the buffer spanning from its
/// start up to, and not including, the first space byte; the whole buffer
/// when no space occurs; the empty view when the buffer is empty or starts
/// with a space. The view shares storage with the buffer, so the borrow
/// checker rejects any mutation of the buffer while the view is still used.
pub fn first_word2(s: &Vec<u8>) -> (r: &[u8])
    ensures
        is_first_space(s@, r@.len() as int),
        r@ == s@.subrange(0, r@.len() as int),
{
    let offset: usize = first_word(s);
    slice_subrange(s.as_slice(), 0, offset)
}

/// First-space offsets are unique: two offsets that both satisfy
/// `is_first_space` for one buffer are equal. Repeated scans of an unmutated
/// buffer therefore return the same offset, which lies in `[0, s.len()]`.
pub proof fn lemma_first_space_unique(s: Seq<u8>, r1: int, r2: int)
    requires
        is_first_space(s, r1),
        is_first_space(s, r2),
    ensures
        r1 == r2,
{
    if r1 < r2 {
        assert(s[r1] == SPACE);
        assert(s[r1] != SPACE);
    }
    if r2 < r1 {
        assert(s[r2] == SPACE);
        assert(s[r2] != SPACE);
    }
}

/// The first token concatenated with the delimiter-and-remainder reconstructs
/// the buffer exactly; when the buffer holds no space byte the token is the
/// whole buffer.
pub proof fn lemma_token_reconstructs(s: Seq<u8>, r: int)
    requires
        is_first_space(s, r),
    ensures
        s.subrange(0, r) + s.subrange(r, s.len() as int) == s,
        (forall|j: int| 0 <= j < s.len() ==> s[j] != SPACE) ==> s.subrange(0, r) == s,
{
    assert(s.subrange(0, r) + s.subrange(r, s.len() as int) =~= s);
    if forall|j: int| 0 <= j < s.len() ==> s[j] != SPACE {
        if r < s.len() {
            assert(s[r] != SPACE);
        }
        assert(s.subrange(0, r) =~= s);
    }
}

} // verus!
