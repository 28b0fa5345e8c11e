//! Sums exposed across a native boundary: a wrapping 64-bit integer sum, a
//! strictly left-to-right accumulation, and the decimal text of a count of
//! nanoseconds.

pub mod accumulate;
pub mod decimal;

use vstd::prelude::*;

verus! {

/// The value that two's-complement hardware gives for `x`, the exact sum of
/// two 64-bit signed integers: `x` shifted by 2^64 back into the `i64` range.
pub open spec fn wrapped_i64(x: int) -> int {
    if x > i64::MAX {
        x - 0x1_0000_0000_0000_0000
    } else if x < i64::MIN {
        x + 0x1_0000_0000_0000_0000
    } else {
        x
    }
}

/// Adds two 64-bit signed integers; on overflow the sum wraps around.
pub fn sum_as_i64(a: i64, b: i64) -> (r: i64)
    ensures
        r as int == wrapped_i64(a + b),
{
    a.wrapping_add(b)
}

} // verus!
