//! Battery charge readings and thresholds, held as IEEE-754 single-precision bit patterns.
use vstd::prelude::*;

verus! {

/// The sign bit of an `f32` bit pattern.
pub const SIGN_BIT: u32 = 0x8000_0000;

/// The bit pattern of positive infinity; magnitudes above it are NaNs.
pub const INFINITY_BITS: u32 = 0x7f80_0000;

/// The magnitude (all bits but the sign) of an `f32` bit pattern.
pub open spec fn magnitude(bits: u32) -> int {
    bits as int % (SIGN_BIT as int)
}

/// The bit pattern encodes a NaN: all exponent bits set and a nonzero fraction.
pub open spec fn is_nan(bits: u32) -> bool {
    magnitude(bits) > INFINITY_BITS as int
}

/// For non-NaN patterns, an integer whose order is the numeric order of the encoded
/// values: positive values order by magnitude, negative ones by negated magnitude,
/// and both zeros map to 0.
pub open spec fn order_key(bits: u32) -> int {
    if bits < SIGN_BIT {
        magnitude(bits)
    } else {
        -magnitude(bits)
    }
}

/// The bit pattern of the `f32` value 100.0.
pub const HUNDRED_PERCENT_BITS: u32 = 0x42c8_0000;

/// The bit pattern encodes a percentage: a number from 0.0 to 100.0 (either zero).
pub open spec fn in_percent_range(bits: u32) -> bool {
    !is_nan(bits) && 0 <= order_key(bits) <= order_key(HUNDRED_PERCENT_BITS)
}

/// `a < b` on the `f32` values with bit patterns `a` and `b`: false whenever either is NaN.
pub open spec fn f32_less(a: u32, b: u32) -> bool {
    !is_nan(a) && !is_nan(b) && order_key(a) < order_key(b)
}

/// A percentage (battery charge or charge threshold), stored as the bit pattern of the
/// `f32` it was read as.
#[derive(Clone, Copy, Debug, PartialEq, Eq, Structural)]
pub struct Percent {
    pub bits: u32,
}

impl Percent {
    /// The percentage whose `f32` has the given bit pattern.
    pub fn from_bits(bits: u32) -> (p: Percent)
        ensures
            p.bits == bits,
    {
        Percent { bits }
    }

    /// The bit pattern of this percentage's `f32`.
    pub fn to_bits(&self) -> (bits: u32)
        ensures
            bits == self.bits,
    {
        self.bits
    }

    /// Whether this is a percentage: not NaN, and from 0.0 to 100.0.
    pub fn is_in_range(&self) -> (r: bool)
        ensures
            r == in_percent_range(self.bits),
    {
        let magnitude: u32 = self.bits % SIGN_BIT;
        if magnitude > INFINITY_BITS {
            return false;
        }
        if self.bits >= SIGN_BIT {
            magnitude == 0
        } else {
            self.bits <= HUNDRED_PERCENT_BITS
        }
    }

    /// `self < other` as `f32` values.
    pub fn is_below(&self, other: &Percent) -> (r: bool)
        ensures
            r == f32_less(self.bits, other.bits),
    {
        let a_mag: u32 = self.bits % SIGN_BIT;
        let b_mag: u32 = other.bits % SIGN_BIT;
        if a_mag > INFINITY_BITS || b_mag > INFINITY_BITS {
            return false;
        }
        let a_neg = self.bits >= SIGN_BIT;
        let b_neg = other.bits >= SIGN_BIT;
        if a_neg {
            if b_neg {
                b_mag < a_mag
            } else {
                // -|a| < |b| unless both are zero
                a_mag > 0 || b_mag > 0
            }
        } else {
            if b_neg {
                false
            } else {
                a_mag < b_mag
            }
        }
    }
}

} // verus!
