//! IEEE-754 binary32 / binary64 values carried as their raw bit patterns.
//!
//! The library never performs floating-point arithmetic. Scores, thresholds
//! and sample rates travel through it as the `u32` (binary32) or `u64`
//! (binary64) bit patterns produced by `to_bits`, and the only operations it
//! needs on them are the comparisons defined here.
//!
//! For every non-NaN value, IEEE-754 orders numbers exactly as the integer
//! "key" below orders their encodings: the magnitude (all bits but the sign)
//! for positive values and its negation for negative ones. Both zeros share
//! the key 0, and every comparison involving a NaN is false.
use vstd::prelude::*;

verus! {

/// Bit pattern of binary32 `+0.0`.
pub const F32_ZERO: u32 = 0x0000_0000;

/// Bit pattern of binary32 `1.0`.
pub const F32_ONE: u32 = 0x3f80_0000;

/// Bit pattern of binary64 `+0.0`.
pub const F64_ZERO: u64 = 0x0000_0000_0000_0000;

/// Magnitude of a binary32 encoding: every bit but the sign bit.
pub open spec fn f32_magnitude(b: u32) -> int {
    if b >= 0x8000_0000 {
        b - 0x8000_0000
    } else {
        b as int
    }
}

/// A binary32 encoding is a NaN when its exponent is all ones and its
/// fraction is non-zero.
pub open spec fn f32_is_nan(b: u32) -> bool {
    f32_magnitude(b) > 0x7f80_0000
}

/// Integer that orders non-NaN binary32 values as IEEE-754 does.
pub open spec fn f32_key(b: u32) -> int {
    if b >= 0x8000_0000 {
        -f32_magnitude(b)
    } else {
        f32_magnitude(b)
    }
}

/// IEEE-754 `a > b` on binary32 values.
pub open spec fn f32_gt(a: u32, b: u32) -> bool {
    !f32_is_nan(a) && !f32_is_nan(b) && f32_key(a) > f32_key(b)
}

/// IEEE-754 `a <= b` on binary32 values.
pub open spec fn f32_le(a: u32, b: u32) -> bool {
    !f32_is_nan(a) && !f32_is_nan(b) && f32_key(a) <= f32_key(b)
}

/// Magnitude of a binary64 encoding.
pub open spec fn f64_magnitude(b: u64) -> int {
    if b >= 0x8000_0000_0000_0000 {
        b - 0x8000_0000_0000_0000
    } else {
        b as int
    }
}

/// A binary64 encoding is a NaN when its exponent is all ones and its
/// fraction is non-zero.
pub open spec fn f64_is_nan(b: u64) -> bool {
    f64_magnitude(b) > 0x7ff0_0000_0000_0000
}

/// Integer that orders non-NaN binary64 values as IEEE-754 does.
pub open spec fn f64_key(b: u64) -> int {
    if b >= 0x8000_0000_0000_0000 {
        -f64_magnitude(b)
    } else {
        f64_magnitude(b)
    }
}

/// IEEE-754 `a > b` on binary64 values.
pub open spec fn f64_gt(a: u64, b: u64) -> bool {
    !f64_is_nan(a) && !f64_is_nan(b) && f64_key(a) > f64_key(b)
}

/// IEEE-754 `a <= b` on binary64 values.
pub open spec fn f64_le(a: u64, b: u64) -> bool {
    !f64_is_nan(a) && !f64_is_nan(b) && f64_key(a) <= f64_key(b)
}

fn f32_key_of(b: u32) -> (k: i64)
    ensures
        k == f32_key(b),
{
    if b >= 0x8000_0000 {
        -((b - 0x8000_0000) as i64)
    } else {
        b as i64
    }
}

fn f32_nan(b: u32) -> (r: bool)
    ensures
        r == f32_is_nan(b),
{
    let m = if b >= 0x8000_0000 {
        b - 0x8000_0000
    } else {
        b
    };
    m > 0x7f80_0000
}

/// `a > b` for binary32 values given by their bit patterns.
pub fn f32_greater_than(a: u32, b: u32) -> (r: bool)
    ensures
        r == f32_gt(a, b),
{
    !f32_nan(a) && !f32_nan(b) && f32_key_of(a) > f32_key_of(b)
}

/// `a <= b` for binary32 values given by their bit patterns.
pub fn f32_at_most(a: u32, b: u32) -> (r: bool)
    ensures
        r == f32_le(a, b),
{
    !f32_nan(a) && !f32_nan(b) && f32_key_of(a) <= f32_key_of(b)
}

/// `a <= b` for binary64 values given by their bit patterns.
pub fn f64_at_most(a: u64, b: u64) -> (r: bool)
    ensures
        r == f64_le(a, b),
{
    let ma: u64 = if a >= 0x8000_0000_0000_0000 {
        a - 0x8000_0000_0000_0000
    } else {
        a
    };
    let mb: u64 = if b >= 0x8000_0000_0000_0000 {
        b - 0x8000_0000_0000_0000
    } else {
        b
    };
    if ma > 0x7ff0_0000_0000_0000 || mb > 0x7ff0_0000_0000_0000 {
        return false;
    }
    let a_neg = a >= 0x8000_0000_0000_0000;
    let b_neg = b >= 0x8000_0000_0000_0000;
    if a_neg && b_neg {
        mb <= ma
    } else if a_neg {
        true
    } else if b_neg {
        ma == 0 && mb == 0
    } else {
        ma <= mb
    }
}

/// `a > b` for binary64 values given by their bit patterns.
pub fn f64_greater_than(a: u64, b: u64) -> (r: bool)
    ensures
        r == f64_gt(a, b),
{
    let ma: u64 = if a >= 0x8000_0000_0000_0000 {
        a - 0x8000_0000_0000_0000
    } else {
        a
    };
    let mb: u64 = if b >= 0x8000_0000_0000_0000 {
        b - 0x8000_0000_0000_0000
    } else {
        b
    };
    if ma > 0x7ff0_0000_0000_0000 || mb > 0x7ff0_0000_0000_0000 {
        return false;
    }
    let a_neg = a >= 0x8000_0000_0000_0000;
    let b_neg = b >= 0x8000_0000_0000_0000;
    if a_neg && b_neg {
        ma < mb
    } else if a_neg {
        false
    } else if b_neg {
        ma > 0 || mb > 0
    } else {
        ma > mb
    }
}

/// A strict comparison is irreflexive: a value never counts as greater than
/// itself, so a score equal to a threshold is never above it.
pub proof fn lemma_f32_gt_irreflexive(a: u32)
    ensures
        !f32_gt(a, a),
{
}

} // verus!
