//! Summation over a borrowed slice of machine integers.

use vstd::prelude::*;

verus! {

/// The mathematical sum of a sequence of machine integers.
pub open spec fn sum_of(s: Seq<i32>) -> int
    decreases s.len(),
{
    if s.len() == 0 {
        0
    } else {
        sum_of(s.drop_last()) + s.last()
    }
}

/// Holds when every left-to-right partial sum of `s` fits in an `i32`, so a
/// sequential accumulation cannot overflow.
pub open spec fn partial_sums_fit(s: Seq<i32>) -> bool {
    forall|k: int|
        0 <= k <= s.len() ==> i32::MIN <= sum_of(#[trigger] s.subrange(0, k)) <= i32::MAX
}

/// Sums the elements of the slice left to right.
pub fn returning_sum_of_array(arr: &[i32]) -> (sum: i32)
    requires
        partial_sums_fit(arr@),
    ensures
        sum == sum_of(arr@),
{
    let mut sum: i32 = 0;
    let n: usize = arr.len();
    let mut i: usize = 0;
    while i < n
        invariant
            i <= n,
            n == arr@.len(),
            partial_sums_fit(arr@),
            sum == sum_of(arr@.subrange(0, i as int)),
        decreases n - i,
    {
        proof {
            assert(arr@.subrange(0, i + 1).drop_last() =~= arr@.subrange(0, i as int));
            assert(arr@.subrange(0, i + 1).last() == arr@[i as int]);
            assert(i32::MIN <= sum_of(arr@.subrange(0, i + 1)) <= i32::MAX);
        }
        sum = sum + arr[i];
        i = i + 1;
    }
    proof {
        assert(arr@.subrange(0, n as int) =~= arr@);
    }
    sum
}

} // verus!
