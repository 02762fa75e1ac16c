//! Units of measure and arithmetic that sticks at the ends of the 64-bit range.

use vstd::prelude::*;

verus! {

/// One pixel, in micro-pixels.
pub const PIXEL: i64 = 1_000_000;

/// One second, in microseconds.
pub const SECOND: i64 = 1_000_000;

/// The value of `v` brought into the range of `i64`.
pub open spec fn sat(v: int) -> int {
    if v < i64::MIN {
        i64::MIN as int
    } else if v > i64::MAX {
        i64::MAX as int
    } else {
        v
    }
}

/// `a + b` brought into range.
pub open spec fn spec_plus(a: i64, b: i64) -> i64 {
    sat(a + b) as i64
}

/// `a - b` brought into range.
pub open spec fn spec_minus(a: i64, b: i64) -> i64 {
    sat(a - b) as i64
}

/// `a * b` brought into range.
pub open spec fn spec_times(a: i64, b: i64) -> i64 {
    sat(a * b) as i64
}

/// `v / 2`, rounded towards negative infinity.
pub open spec fn spec_half(v: i64) -> i64 {
    (v / 2) as i64
}

/// `a + b` brought into the range of `i32`: the sum of two counters.
pub open spec fn spec_count_plus(a: i32, b: i32) -> i32 {
    if a + b < i32::MIN {
        i32::MIN
    } else if a + b > i32::MAX {
        i32::MAX
    } else {
        (a + b) as i32
    }
}

/// `a + b`, or the end of the range that the sum has passed.
#[verifier::when_used_as_spec(spec_plus)]
pub fn plus(a: i64, b: i64) -> (r: i64)
    ensures
        r == spec_plus(a, b),
{
    match a.checked_add(b) {
        Some(v) => v,
        None => if b > 0 { i64::MAX } else { i64::MIN },
    }
}

/// `a - b`, or the end of the range that the difference has passed.
#[verifier::when_used_as_spec(spec_minus)]
pub fn minus(a: i64, b: i64) -> (r: i64)
    ensures
        r == spec_minus(a, b),
{
    match a.checked_sub(b) {
        Some(v) => v,
        None => if b < 0 { i64::MAX } else { i64::MIN },
    }
}

/// `a * b`, or the end of the range that the product has passed.
#[verifier::when_used_as_spec(spec_times)]
pub fn times(a: i64, b: i64) -> (r: i64)
    ensures
        r == spec_times(a, b),
{
    match a.checked_mul(b) {
        Some(v) => v,
        None => {
            assert((a > 0 && b > 0) || (a < 0 && b < 0) ==> a * b > 0) by (nonlinear_arith);
            assert((a > 0 && b < 0) || (a < 0 && b > 0) ==> a * b < 0) by (nonlinear_arith);
            assert(a == 0 || b == 0 ==> a * b == 0) by (nonlinear_arith);
            if (a > 0) == (b > 0) { i64::MAX } else { i64::MIN }
        },
    }
}

/// The sum of two counters, or the end of the range of `i32` that it has
/// passed.
#[verifier::when_used_as_spec(spec_count_plus)]
pub fn count_plus(a: i32, b: i32) -> (r: i32)
    ensures
        r == spec_count_plus(a, b),
{
    match a.checked_add(b) {
        Some(v) => v,
        None => if b > 0 { i32::MAX } else { i32::MIN },
    }
}

/// Half of `v`, rounded towards negative infinity.
#[verifier::when_used_as_spec(spec_half)]
pub fn half(v: i64) -> (r: i64)
    ensures
        r == spec_half(v),
{
    if v >= 0 {
        v / 2
    } else {
        let w: i128 = v as i128;
        let h: i128 = (w - 1) / 2;
        h as i64
    }
}

} // verus!
