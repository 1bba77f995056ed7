//! Integer arithmetic on signed 64-bit values.
use vstd::prelude::*;

verus! {

/// The successor of `x`. `x` must not be the largest `i64`, whose successor
/// does not fit.
pub fn add_one(x: i64) -> (r: i64)
    requires
        x < i64::MAX,
    ensures
        r == x + 1,
{
    x + 1
}

/// The sum of `x` and `y`. The sum must fit in an `i64`.
pub fn sum(x: i64, y: i64) -> (r: i64)
    requires
        i64::MIN <= x + y <= i64::MAX,
    ensures
        r == x + y,
{
    x + y
}

} // verus!
