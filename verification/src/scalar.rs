//! Clamping of integers between two bounds, whichever of them is the
//! smaller.

use vstd::prelude::*;

verus! {

/// The smaller of two integers.
pub open spec fn lesser(a: int, b: int) -> int {
    if a <= b {
        a
    } else {
        b
    }
}

/// The larger of two integers.
pub open spec fn greater(a: int, b: int) -> int {
    if a >= b {
        a
    } else {
        b
    }
}

/// The middle one of three integers.
pub open spec fn median(a: int, b: int, c: int) -> int {
    greater(lesser(a, b), lesser(greater(a, b), c))
}

/// `v` held between the bounds `lo` and `hi`, whichever of the two is the
/// smaller: the median of the value and the two bounds.
pub open spec fn clamp_int(v: int, lo: int, hi: int) -> int {
    median(lo, v, hi)
}

/// Clamping caps the value at the larger bound and then raises it to the
/// smaller one. The result lies between the bounds, and a value between
/// the bounds is left as it is.
pub proof fn lemma_clamp_is_median(v: int, lo: int, hi: int)
    ensures
        clamp_int(v, lo, hi) == median(lo, v, hi),
        clamp_int(v, lo, hi) == greater(lesser(v, greater(lo, hi)), lesser(lo, hi)),
        clamp_int(v, lo, hi) == clamp_int(v, hi, lo),
        lesser(lo, hi) <= clamp_int(v, lo, hi) <= greater(lo, hi),
        lesser(lo, hi) <= v <= greater(lo, hi) ==> clamp_int(v, lo, hi) == v,
{
}

/// `v` clamped between the two bounds of `range`.
pub fn clamp_i32(v: i32, range: (i32, i32)) -> (r: i32)
    ensures
        r == clamp_int(v as int, range.0 as int, range.1 as int),
{
    let (low, high) = if range.0 <= range.1 {
        (range.0, range.1)
    } else {
        (range.1, range.0)
    };
    let capped = if v <= high {
        v
    } else {
        high
    };
    if capped >= low {
        capped
    } else {
        low
    }
}

/// `v` clamped between the two bounds of `range`.
pub fn clamp_i64(v: i64, range: (i64, i64)) -> (r: i64)
    ensures
        r == clamp_int(v as int, range.0 as int, range.1 as int),
{
    let (low, high) = if range.0 <= range.1 {
        (range.0, range.1)
    } else {
        (range.1, range.0)
    };
    let capped = if v <= high {
        v
    } else {
        high
    };
    if capped >= low {
        capped
    } else {
        low
    }
}

/// `value + delta`, or `value - delta` for a step backward, clamped
/// between the two bounds of `range`; computed without overflow.
pub fn step_i32(value: i32, delta: i32, forward: bool, range: (i32, i32)) -> (r: i32)
    ensures
        r == clamp_int(
            if forward {
                value + delta
            } else {
                value - delta
            },
            range.0 as int,
            range.1 as int,
        ),
{
    let wide: i64 = if forward {
        value as i64 + delta as i64
    } else {
        value as i64 - delta as i64
    };
    let (low, high) = if range.0 <= range.1 {
        (range.0, range.1)
    } else {
        (range.1, range.0)
    };
    if wide > high as i64 {
        high
    } else if wide < low as i64 {
        low
    } else {
        wide as i32
    }
}

/// `value + delta`, or `value - delta` for a step backward, clamped
/// between the two bounds of `range`; computed without overflow.
pub fn step_i64(value: i64, delta: i64, forward: bool, range: (i64, i64)) -> (r: i64)
    ensures
        r == clamp_int(
            if forward {
                value + delta
            } else {
                value - delta
            },
            range.0 as int,
            range.1 as int,
        ),
{
    let wide: i128 = if forward {
        value as i128 + delta as i128
    } else {
        value as i128 - delta as i128
    };
    let (low, high) = if range.0 <= range.1 {
        (range.0, range.1)
    } else {
        (range.1, range.0)
    };
    if wide > high as i128 {
        high
    } else if wide < low as i128 {
        low
    } else {
        wide as i64
    }
}

} // verus!
