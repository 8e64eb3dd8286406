//! Simulation times, held as the bit pattern of an IEEE-754 binary64 value.
use vstd::prelude::*;

verus! {

/// The sign bit of a binary64 value.
pub const SIGN_BIT: u64 = 0x8000_0000_0000_0000;

/// The magnitude bits of positive infinity; every larger magnitude is a NaN.
pub const INFINITY_BITS: u64 = 0x7FF0_0000_0000_0000;

/// The magnitude of a binary64 value: its bits without the sign bit.
pub open spec fn magnitude(bits: u64) -> int {
    if bits >= SIGN_BIT {
        bits - SIGN_BIT
    } else {
        bits as int
    }
}

/// Whether the bits encode a NaN (all exponent bits set, fraction not zero).
pub open spec fn is_nan_bits(bits: u64) -> bool {
    magnitude(bits) > INFINITY_BITS
}

/// A key that orders the non-NaN binary64 values as the reals they denote;
/// both zeros get the key 0.
pub open spec fn order_key(bits: u64) -> int {
    if bits >= SIGN_BIT {
        -magnitude(bits)
    } else {
        magnitude(bits)
    }
}

/// IEEE-754 `<` on two binary64 bit patterns: false whenever either is a NaN.
pub open spec fn bits_lt(a: u64, b: u64) -> bool {
    !is_nan_bits(a) && !is_nan_bits(b) && order_key(a) < order_key(b)
}

/// A point on the simulation's time axis.
#[derive(Clone, Copy, Debug, PartialEq, Eq, Structural)]
pub struct Time {
    /// The IEEE-754 binary64 encoding of the time.
    pub bits: u64,
}

impl Time {
    pub open spec fn spec_lt(self, other: Time) -> bool {
        bits_lt(self.bits, other.bits)
    }

    /// The time whose binary64 encoding is `bits`.
    pub fn from_bits(bits: u64) -> (r: Time)
        ensures
            r.bits == bits,
    {
        Time { bits }
    }

    /// The binary64 encoding of the time.
    pub fn to_bits(&self) -> (r: u64)
        ensures
            r == self.bits,
    {
        self.bits
    }

    /// Whether the time is a NaN.
    pub fn is_nan(&self) -> (r: bool)
        ensures
            r == is_nan_bits(self.bits),
    {
        magnitude_of(self.bits) > INFINITY_BITS
    }

    /// Whether this time comes strictly before `other`, as `<` on the two
    /// binary64 values decides it.
    pub fn is_before(&self, other: &Time) -> (r: bool)
        ensures
            r == self.spec_lt(*other),
    {
        if self.is_nan() || other.is_nan() {
            return false;
        }
        let a_neg = self.bits >= SIGN_BIT;
        let b_neg = other.bits >= SIGN_BIT;
        let a = magnitude_of(self.bits);
        let b = magnitude_of(other.bits);
        if a_neg && b_neg {
            b < a
        } else if a_neg {
            // a negative value precedes a positive one unless both are zero
            a != 0 || b != 0
        } else if b_neg {
            false
        } else {
            a < b
        }
    }
}

fn magnitude_of(bits: u64) -> (r: u64)
    ensures
        r as int == magnitude(bits),
{
    if bits >= SIGN_BIT {
        bits - SIGN_BIT
    } else {
        bits
    }
}

} // verus!
