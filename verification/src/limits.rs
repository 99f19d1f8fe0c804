//! Ranges of request parameters.
use vstd::prelude::*;

verus! {

/// `n` brought between `low` and `high`.
pub open spec fn clamped(n: int, low: int, high: int) -> int {
    if n < low {
        low
    } else if n > high {
        high
    } else {
        n
    }
}

/// Brings `n` between `low` and `high`.
pub fn clamp(n: i32, low: i32, high: i32) -> (r: i32)
    requires
        low <= high,
    ensures
        r == clamped(n as int, low as int, high as int),
{
    if n < low {
        low
    } else if n > high {
        high
    } else {
        n
    }
}

/// A clamped number is in range, and a number in range is left alone.
pub proof fn law_clamped_in_range(n: int, low: int, high: int)
    requires
        low <= high,
    ensures
        low <= clamped(n, low, high) <= high,
        low <= n <= high ==> clamped(n, low, high) == n,
        clamped(clamped(n, low, high), low, high) == clamped(n, low, high),
{
}

} // verus!
