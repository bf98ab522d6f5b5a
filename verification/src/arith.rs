//! Small arithmetic helpers used to compute repeat counts.

use vstd::prelude::*;

verus! {

/// The sum of two non-negative integers.
pub fn add(a: u64, b: u64) -> (sum: u64)
    requires
        a + b <= u64::MAX,
    ensures
        sum == a + b,
{
    a + b
}

/// `add` curried on the left with 3 (the operation is symmetric).
pub fn plus3(n: u64) -> (r: u64)
    requires
        n + 3 <= u64::MAX,
    ensures
        r == n + 3,
{
    crate::arith::add(3, n)
}

} // verus!
