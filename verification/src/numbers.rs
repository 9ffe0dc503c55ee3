//! Small arithmetic helpers, proved free of overflow.

use vstd::prelude::*;

verus! {

/// Adds two numbers; the caller guarantees the sum fits in `i32`.
pub fn add(i: i32, j: i32) -> (r: i32)
    requires
        i32::MIN <= i + j <= i32::MAX,
    ensures
        r == i + j,
{
    i + j
}

/// Adds one to the number given; the caller guarantees the successor fits.
pub fn add_one(x: i32) -> (r: i32)
    requires
        x < i32::MAX,
    ensures
        r == x + 1,
{
    x + 1
}

} // verus!
