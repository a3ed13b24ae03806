//! Comparison of successive sensor readings.
//!
//! A reading is reported only when it differs noticeably from the previous
//! one; `almost_equal` is the tolerance test that decides this.

use vstd::prelude::*;

verus! {

use vstd::math::abs;

/// Whether two readings lie within `error` of each other, comparing
/// absolute differences.
///
/// The inputs on which `i32` negation or subtraction would overflow are
/// excluded up front.
pub fn almost_equal(lhs: i32, rhs: i32, error: i32) -> (r: bool)
    requires
        i32::MIN < lhs - rhs <= i32::MAX,
        error != i32::MIN,
    ensures
        r == (abs(lhs - rhs) < abs(error as int)),
{
    let diff: i32 = lhs - rhs;
    let diff_abs: i32 = if diff < 0 {
        -diff
    } else {
        diff
    };
    let error_abs: i32 = if error < 0 {
        -error
    } else {
        error
    };
    diff_abs < error_abs
}

} // verus!
