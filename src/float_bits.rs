//! Floating-point numbers held as IEEE-754 binary64 bit patterns.
//!
//! The data model only ever stores, copies and orders such numbers. Ordering follows IEEE-754:
//! for every number that is not a NaN, the order of the values is the order of `order_key`
//! (sign and magnitude, with `-0.0` and `+0.0` equal). A NaN is unordered with everything.

use vstd::prelude::*;

verus! {

/// A floating-point number held as its IEEE-754 binary64 bit pattern.
#[derive(Clone, Copy, Debug, PartialEq, Eq, Structural)]
pub struct Real {
    pub bits: u64,
}

/// The bit pattern reserved for "missing": a quiet NaN with a payload that no arithmetic
/// produces, so every ordinary number (and the usual NaN) stays representable.
pub const MISSING_REAL_BITS: u64 = 0x7FF8_0000_DEAD_BEEF;

/// The sign bit of a binary64 number.
pub const SIGN_BIT: u64 = 0x8000_0000_0000_0000;

/// The bit pattern of positive infinity: every larger magnitude is a NaN.
pub const INFINITY_BITS: u64 = 0x7FF0_0000_0000_0000;

/// The bit pattern of `+0.0`.
pub const ZERO_BITS: u64 = 0;

/// The magnitude of a bit pattern: the pattern without its sign bit.
pub open spec fn magnitude(b: u64) -> int {
    if b >= SIGN_BIT {
        b - SIGN_BIT
    } else {
        b as int
    }
}

/// Whether the bit pattern is a NaN (all exponent bits set and a non-zero fraction).
pub open spec fn is_nan(r: Real) -> bool {
    magnitude(r.bits) > INFINITY_BITS
}

/// An integer whose order is the IEEE-754 order of the numbers that are not NaN.
pub open spec fn order_key(r: Real) -> int {
    if r.bits >= SIGN_BIT {
        -magnitude(r.bits)
    } else {
        magnitude(r.bits)
    }
}

/// `a < b` in floating point.
pub open spec fn real_lt(a: Real, b: Real) -> bool {
    !is_nan(a) && !is_nan(b) && order_key(a) < order_key(b)
}

/// `a == b` in floating point.
pub open spec fn real_eq(a: Real, b: Real) -> bool {
    !is_nan(a) && !is_nan(b) && order_key(a) == order_key(b)
}

impl Real {
    /// `+0.0`.
    pub fn zero() -> (r: Real)
        ensures
            r.bits == ZERO_BITS,
            order_key(r) == 0,
    {
        Real { bits: ZERO_BITS }
    }

    /// Whether this is a NaN.
    pub fn is_nan(self) -> (r: bool)
        ensures
            r == is_nan(self),
    {
        let m = if self.bits >= SIGN_BIT { self.bits - SIGN_BIT } else { self.bits };
        m > INFINITY_BITS
    }

    fn key(self) -> (r: i128)
        ensures
            r == order_key(self),
    {
        if self.bits >= SIGN_BIT {
            -((self.bits - SIGN_BIT) as i128)
        } else {
            self.bits as i128
        }
    }

    /// `self < other` in floating point: false where either is a NaN.
    pub fn lt(self, other: Real) -> (r: bool)
        ensures
            r == real_lt(self, other),
    {
        !self.is_nan() && !other.is_nan() && self.key() < other.key()
    }

    /// `self == other` in floating point: `-0.0` equals `+0.0`, a NaN equals nothing.
    pub fn float_eq(self, other: Real) -> (r: bool)
        ensures
            r == real_eq(self, other),
    {
        !self.is_nan() && !other.is_nan() && self.key() == other.key()
    }
}

} // verus!
