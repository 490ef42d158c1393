//! Floating-point values as IEEE-754 bit patterns, compared in integer
//! arithmetic. A pattern is an unsigned integer: the sign in the top bit,
//! then exponent and fraction. A format is given by its sign bit and by the
//! pattern of positive infinity.

use vstd::prelude::*;
use crate::scalar::median;

verus! {

/// The sign bit of the 32-bit format.
pub const SIGN_32: u32 = 0x8000_0000u32;

/// Positive infinity in the 32-bit format.
pub const INFINITY_32: u32 = 0x7f80_0000u32;

/// The sign bit of the 64-bit format.
pub const SIGN_64: u64 = 0x8000_0000_0000_0000u64;

/// Positive infinity in the 64-bit format.
pub const INFINITY_64: u64 = 0x7ff0_0000_0000_0000u64;

/// The pattern without its sign.
pub open spec fn magnitude(bits: int, sign: int) -> int {
    if bits >= sign {
        bits - sign
    } else {
        bits
    }
}

/// The pattern stands for no number.
pub open spec fn is_nan(bits: int, sign: int, infinity: int) -> bool {
    magnitude(bits, sign) > infinity
}

/// The place of a pattern in the order of the numbers: patterns of larger
/// numbers have larger ranks, and negative zero ranks just below positive
/// zero.
pub open spec fn rank(bits: int, sign: int) -> int {
    if bits >= sign {
        -magnitude(bits, sign) - 1
    } else {
        bits
    }
}

/// The smaller of two patterns. Where one stands for no number, the other.
pub open spec fn lesser_bits(a: int, b: int, sign: int, infinity: int) -> int {
    if is_nan(a, sign, infinity) {
        b
    } else if is_nan(b, sign, infinity) {
        a
    } else if rank(a, sign) <= rank(b, sign) {
        a
    } else {
        b
    }
}

/// The larger of two patterns. Where one stands for no number, the other.
pub open spec fn greater_bits(a: int, b: int, sign: int, infinity: int) -> int {
    if is_nan(a, sign, infinity) {
        b
    } else if is_nan(b, sign, infinity) {
        a
    } else if rank(a, sign) >= rank(b, sign) {
        a
    } else {
        b
    }
}

/// `v` held between the bounds `lo` and `hi`, whichever of the two is the
/// smaller: capped at the larger bound, then raised to the smaller one. A
/// bound that stands for no number counts as the other bound.
pub open spec fn clamp_bits(v: int, lo: int, hi: int, sign: int, infinity: int) -> int {
    greater_bits(
        lesser_bits(v, greater_bits(lo, hi, sign, infinity), sign, infinity),
        lesser_bits(lo, hi, sign, infinity),
        sign,
        infinity,
    )
}

/// Clamping a number between two numbers yields the pattern whose rank is
/// the median of the three ranks, which is one of the three patterns,
/// whichever bound is the smaller.
pub proof fn lemma_clamp_bits_is_median(v: int, lo: int, hi: int, sign: int, infinity: int)
    requires
        0 <= infinity < sign,
        0 <= v < 2 * sign,
        0 <= lo < 2 * sign,
        0 <= hi < 2 * sign,
        !is_nan(v, sign, infinity),
        !is_nan(lo, sign, infinity),
        !is_nan(hi, sign, infinity),
    ensures
        rank(clamp_bits(v, lo, hi, sign, infinity), sign) == median(
            rank(lo, sign),
            rank(v, sign),
            rank(hi, sign),
        ),
        clamp_bits(v, lo, hi, sign, infinity) == clamp_bits(v, hi, lo, sign, infinity),
        ({
            let r = clamp_bits(v, lo, hi, sign, infinity);
            r == v || r == lo || r == hi
        }),
{
}

/// The rank decides the pattern: two patterns of one rank are equal.
pub proof fn lemma_rank_is_injective(a: int, b: int, sign: int)
    requires
        0 <= a < 2 * sign,
        0 <= b < 2 * sign,
        rank(a, sign) == rank(b, sign),
    ensures
        a == b,
{
}

/// A value that stands for no number is replaced by the larger of two
/// bounds that are numbers.
pub proof fn lemma_clamp_bits_of_nan(v: int, lo: int, hi: int, sign: int, infinity: int)
    requires
        is_nan(v, sign, infinity),
        !is_nan(lo, sign, infinity),
        !is_nan(hi, sign, infinity),
    ensures
        clamp_bits(v, lo, hi, sign, infinity) == greater_bits(lo, hi, sign, infinity),
{
}

/// Whether a 32-bit pattern stands for no number.
pub fn is_nan_32(bits: u32) -> (r: bool)
    ensures
        r == is_nan(bits as int, SIGN_32 as int, INFINITY_32 as int),
{
    let m: u32 = if bits >= SIGN_32 {
        bits - SIGN_32
    } else {
        bits
    };
    m > INFINITY_32
}

/// The rank of a 32-bit pattern.
pub fn rank_32(bits: u32) -> (r: i64)
    ensures
        r == rank(bits as int, SIGN_32 as int),
{
    if bits >= SIGN_32 {
        let m: u32 = bits - SIGN_32;
        -(m as i64) - 1
    } else {
        bits as i64
    }
}

/// The smaller of two 32-bit patterns.
pub fn lesser_32(a: u32, b: u32) -> (r: u32)
    ensures
        r == lesser_bits(a as int, b as int, SIGN_32 as int, INFINITY_32 as int),
{
    if is_nan_32(a) {
        b
    } else if is_nan_32(b) {
        a
    } else if rank_32(a) <= rank_32(b) {
        a
    } else {
        b
    }
}

/// The larger of two 32-bit patterns.
pub fn greater_32(a: u32, b: u32) -> (r: u32)
    ensures
        r == greater_bits(a as int, b as int, SIGN_32 as int, INFINITY_32 as int),
{
    if is_nan_32(a) {
        b
    } else if is_nan_32(b) {
        a
    } else if rank_32(a) >= rank_32(b) {
        a
    } else {
        b
    }
}

/// `v` clamped between the two bounds of `range`, all three as 32-bit
/// patterns.
pub fn clamp_32(v: u32, range: (u32, u32)) -> (r: u32)
    ensures
        r == clamp_bits(
            v as int,
            range.0 as int,
            range.1 as int,
            SIGN_32 as int,
            INFINITY_32 as int,
        ),
{
    greater_32(lesser_32(v, greater_32(range.0, range.1)), lesser_32(range.0, range.1))
}

/// Whether a 64-bit pattern stands for no number.
pub fn is_nan_64(bits: u64) -> (r: bool)
    ensures
        r == is_nan(bits as int, SIGN_64 as int, INFINITY_64 as int),
{
    let m: u64 = if bits >= SIGN_64 {
        bits - SIGN_64
    } else {
        bits
    };
    m > INFINITY_64
}

/// The rank of a 64-bit pattern.
pub fn rank_64(bits: u64) -> (r: i128)
    ensures
        r == rank(bits as int, SIGN_64 as int),
{
    if bits >= SIGN_64 {
        let m: u64 = bits - SIGN_64;
        -(m as i128) - 1
    } else {
        bits as i128
    }
}

/// The smaller of two 64-bit patterns.
pub fn lesser_64(a: u64, b: u64) -> (r: u64)
    ensures
        r == lesser_bits(a as int, b as int, SIGN_64 as int, INFINITY_64 as int),
{
    if is_nan_64(a) {
        b
    } else if is_nan_64(b) {
        a
    } else if rank_64(a) <= rank_64(b) {
        a
    } else {
        b
    }
}

/// The larger of two 64-bit patterns.
pub fn greater_64(a: u64, b: u64) -> (r: u64)
    ensures
        r == greater_bits(a as int, b as int, SIGN_64 as int, INFINITY_64 as int),
{
    if is_nan_64(a) {
        b
    } else if is_nan_64(b) {
        a
    } else if rank_64(a) >= rank_64(b) {
        a
    } else {
        b
    }
}

/// `v` clamped between the two bounds of `range`, all three as 64-bit
/// patterns.
pub fn clamp_64(v: u64, range: (u64, u64)) -> (r: u64)
    ensures
        r == clamp_bits(
            v as int,
            range.0 as int,
            range.1 as int,
            SIGN_64 as int,
            INFINITY_64 as int,
        ),
{
    greater_64(lesser_64(v, greater_64(range.0, range.1)), lesser_64(range.0, range.1))
}

} // verus!
