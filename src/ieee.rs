//! IEEE-754 encodings: what the library needs to know about a float from its bits.
//!
//! For two encodings of the same sign that are not NaN, the order of the values
//! they encode agrees with the order of their magnitude bits (the encoding
//! without its sign bit). Comparisons against zero and one are therefore
//! comparisons of integers.
use vstd::prelude::*;

verus! {

/// Sign bit of a single-precision encoding; on its own it encodes `-0.0`.
pub const F32_SIGN: u32 = 0x8000_0000;

/// Sign bit of a double-precision encoding.
pub const F64_SIGN: u64 = 0x8000_0000_0000_0000;

/// Double-precision `+0.0`.
pub const F64_ZERO: u64 = 0;

/// Double-precision `1.0`.
pub const F64_ONE: u64 = 0x3FF0_0000_0000_0000;

/// Double-precision `-1.0`.
pub const F64_NEG_ONE: u64 = 0xBFF0_0000_0000_0000;

/// Magnitude bits of double-precision infinity; any larger magnitude is a NaN.
pub const F64_INFINITY: u64 = 0x7FF0_0000_0000_0000;

/// The single-precision encoding `b` is `+0.0` or `-0.0`.
pub open spec fn is_zero32(b: u32) -> bool {
    b == 0 || b == F32_SIGN
}

/// The double-precision encoding `b` carries its sign bit.
pub open spec fn is_negative64(b: u64) -> bool {
    b >= F64_SIGN
}

/// The encoding `b` without its sign bit.
pub open spec fn magnitude64(b: u64) -> u64 {
    if is_negative64(b) {
        (b - F64_SIGN) as u64
    } else {
        b
    }
}

/// The double-precision encoding `b` is a NaN.
pub open spec fn is_nan64(b: u64) -> bool {
    magnitude64(b) > F64_INFINITY
}

/// The double-precision encoding `b` is a number in the closed interval [-1, 1].
pub open spec fn in_unit_interval(b: u64) -> bool {
    magnitude64(b) <= F64_ONE
}

/// `b` clamped to [-1, 1]: a number above one becomes one, one below minus one
/// becomes minus one, anything else (a NaN included) stays as it is.
pub open spec fn unit_clamped(b: u64) -> u64 {
    if is_nan64(b) || in_unit_interval(b) {
        b
    } else if is_negative64(b) {
        F64_NEG_ONE
    } else {
        F64_ONE
    }
}

/// The single-precision encoding `b` is `+0.0` or `-0.0`.
pub fn is_zero_f32_bits(b: u32) -> (r: bool)
    ensures
        r == is_zero32(b),
{
    b == 0 || b == F32_SIGN
}

/// Clamps the double-precision number encoded by `b` to [-1, 1].
pub fn clamp_unit(b: u64) -> (r: u64)
    ensures
        r == unit_clamped(b),
        !is_nan64(b) ==> in_unit_interval(r),
        in_unit_interval(b) ==> r == b,
{
    let magnitude: u64 = if b >= F64_SIGN {
        b - F64_SIGN
    } else {
        b
    };
    if magnitude > F64_INFINITY || magnitude <= F64_ONE {
        b
    } else if b >= F64_SIGN {
        F64_NEG_ONE
    } else {
        F64_ONE
    }
}

} // verus!
