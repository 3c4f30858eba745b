//! Numbers as the toolkit computes with them.
//!
//! Verus proves nothing about floating point, so no verified function here
//! holds a number directly: numbers stay inside the toolkit's own values
//! (vectors, rectangles, strokes). Contracts speak of a number by its
//! IEEE 754 single-precision bit pattern, a `u32`, with every NaN read as
//! the one pattern `0x7fc0_0000`, so that a pattern depends on the number
//! alone. The order on patterns is defined here; the arithmetic is the
//! machine's and is only named.

use vstd::prelude::*;

verus! {

/// The pattern with its sign bit cleared.
pub open spec fn magnitude(bits: u32) -> int {
    if bits >= 0x8000_0000 {
        bits - 0x8000_0000
    } else {
        bits as int
    }
}

/// Whether the pattern is not a number.
pub open spec fn is_nan(bits: u32) -> bool {
    magnitude(bits) > 0x7f80_0000
}

/// An integer that orders the patterns of numbers as the numbers are
/// ordered. The two zeros share rank 0.
pub open spec fn rank(bits: u32) -> int {
    if bits >= 0x8000_0000 {
        -magnitude(bits)
    } else {
        magnitude(bits)
    }
}

/// `a <= b` as the machine compares numbers: false where either is NaN.
pub open spec fn number_le(a: u32, b: u32) -> bool {
    !is_nan(a) && !is_nan(b) && rank(a) <= rank(b)
}

/// `a < b` as the machine compares numbers: false where either is NaN.
pub open spec fn number_lt(a: u32, b: u32) -> bool {
    !is_nan(a) && !is_nan(b) && rank(a) < rank(b)
}

/// Whether `m` is a maximum of `a` and `b` that ignores NaN: the other
/// argument where one is NaN, else one of the two that is not below
/// either. Where `a` and `b` are the two zeros, either may be `m`.
pub open spec fn is_max_of(m: u32, a: u32, b: u32) -> bool {
    if is_nan(a) && is_nan(b) {
        is_nan(m)
    } else if is_nan(a) {
        m == b
    } else if is_nan(b) {
        m == a
    } else {
        (m == a || m == b) && rank(a) <= rank(m) && rank(b) <= rank(m)
    }
}

/// Whether the pattern is a number that is not infinite.
pub open spec fn is_finite(bits: u32) -> bool {
    magnitude(bits) < 0x7f80_0000
}

/// Whether the pattern is a number at or above zero (infinity included).
pub open spec fn is_length(bits: u32) -> bool {
    !is_nan(bits) && rank(bits) >= 0
}

/// The pattern of `a + b`.
pub uninterp spec fn number_sum(a: u32, b: u32) -> u32;

/// The pattern of `a - b`.
pub uninterp spec fn number_difference(a: u32, b: u32) -> u32;

/// The pattern of `a * b`.
pub uninterp spec fn number_product(a: u32, b: u32) -> u32;

/// The pattern of `a / b`.
pub uninterp spec fn number_quotient(a: u32, b: u32) -> u32;

/// The pattern of the number that the integer `n` converts to.
pub uninterp spec fn number_of(n: u8) -> u32;

} // verus!
