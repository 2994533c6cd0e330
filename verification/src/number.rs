//! Binary64 numbers as bit patterns.
//!
//! Every number the optimizer handles is carried as the 64 bits of its
//! IEEE 754 binary64 encoding. Ordering, equality and absolute value are
//! functions of those bits alone and are decided here; sums, differences and
//! products are asked of the host.

use vstd::prelude::*;

verus! {

/// Bits of `+0.0`.
pub const ZERO: u64 = 0;

/// Bits of `2.0`.
pub const TWO: u64 = 0x4000_0000_0000_0000;

/// Mask of the sign bit.
pub const SIGN: u64 = 0x8000_0000_0000_0000;

/// Bits of positive infinity: every larger magnitude encodes a NaN.
pub const INFINITY: u64 = 0x7ff0_0000_0000_0000;

/// The encoding with its sign bit cleared.
pub open spec fn magnitude(bits: u64) -> u64 {
    if bits >= SIGN {
        (bits - SIGN) as u64
    } else {
        bits
    }
}

/// Whether the sign bit is set.
pub open spec fn is_negative(bits: u64) -> bool {
    bits >= SIGN
}

/// Whether the encoding is a NaN.
pub open spec fn is_nan(bits: u64) -> bool {
    magnitude(bits) > INFINITY
}

/// Position of a non-NaN encoding on the number line: encodings are
/// sign-magnitude, so magnitudes order the positives and, reversed, the
/// negatives. Both zeros sit at 0.
pub open spec fn rank(bits: u64) -> int {
    if is_negative(bits) {
        -(magnitude(bits) as int)
    } else {
        magnitude(bits) as int
    }
}

/// `a <= b` as binary64 numbers: false when either is a NaN.
pub open spec fn le(a: u64, b: u64) -> bool {
    !is_nan(a) && !is_nan(b) && rank(a) <= rank(b)
}

/// `a < b` as binary64 numbers: false when either is a NaN.
pub open spec fn lt(a: u64, b: u64) -> bool {
    !is_nan(a) && !is_nan(b) && rank(a) < rank(b)
}

/// `a == b` as binary64 numbers: false when either is a NaN, true of the two
/// zeros.
pub open spec fn same(a: u64, b: u64) -> bool {
    !is_nan(a) && !is_nan(b) && rank(a) == rank(b)
}

/// Clears the sign bit.
pub fn absolute(bits: u64) -> (r: u64)
    ensures
        r == magnitude(bits),
{
    if bits >= SIGN {
        bits - SIGN
    } else {
        bits
    }
}

/// Tells whether the encoding is a NaN.
pub fn nan(bits: u64) -> (r: bool)
    ensures
        r == is_nan(bits),
{
    absolute(bits) > INFINITY
}

/// Decides `a <= b`.
pub fn at_most(a: u64, b: u64) -> (r: bool)
    ensures
        r == le(a, b),
{
    if nan(a) || nan(b) {
        return false;
    }
    let x: u64 = absolute(a);
    let y: u64 = absolute(b);
    if a >= SIGN {
        if b >= SIGN {
            y <= x
        } else {
            true
        }
    } else {
        if b >= SIGN {
            x == 0 && y == 0
        } else {
            x <= y
        }
    }
}

/// Decides `a < b`.
pub fn below(a: u64, b: u64) -> (r: bool)
    ensures
        r == lt(a, b),
{
    if nan(a) || nan(b) {
        return false;
    }
    let x: u64 = absolute(a);
    let y: u64 = absolute(b);
    if a >= SIGN {
        if b >= SIGN {
            y < x
        } else {
            x != 0 || y != 0
        }
    } else {
        if b >= SIGN {
            false
        } else {
            x < y
        }
    }
}

/// Decides `a == b`.
pub fn equal(a: u64, b: u64) -> (r: bool)
    ensures
        r == same(a, b),
{
    if nan(a) || nan(b) {
        return false;
    }
    let x: u64 = absolute(a);
    let y: u64 = absolute(b);
    if x == 0 && y == 0 {
        true
    } else {
        a == b
    }
}

} // verus!
