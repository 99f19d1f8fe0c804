//! What the numbers that come back from the database mean.
use vstd::prelude::*;

verus! {

/// Whether a statement touched any row.
pub fn touched(rows_affected: u64) -> (r: bool)
    ensures
        r == (rows_affected > 0),
{
    rows_affected > 0
}

/// Whether a count found anything.
pub fn any_counted(count: i64) -> (r: bool)
    ensures
        r == (count > 0),
{
    count > 0
}

/// A count as an unsigned number; a count is never negative.
pub fn unsigned_count(count: i64) -> (r: u64)
    ensures
        r == count as u64,
        count >= 0 ==> r == count,
{
    #[verifier::truncate]
    (count as u64)
}

/// A sum as an unsigned number; the sum of no rows is zero.
pub fn unsigned_sum(sum: Option<i64>) -> (r: u64)
    ensures
        sum is None ==> r == 0,
        sum matches Some(n) ==> r == n as u64,
        sum matches Some(n) ==> n >= 0 ==> r == n,
{
    match sum {
        Some(n) => unsigned_count(n),
        None => 0,
    }
}

} // verus!
