//! Amounts of study time, carried as the bit pattern of a single-precision
//! IEEE 754 number so that no floating-point arithmetic is needed to store,
//! compare for identity, or classify them.

use vstd::prelude::*;

verus! {

/// The bit pattern of positive infinity: the largest pattern with a clear
/// sign bit that is not a NaN.
pub const INFINITY_BITS: u32 = 0x7f80_0000;

/// A number of hours, held as the bits of an `f32`: from the top, one sign
/// bit, eight bits of exponent, twenty-three bits of fraction.
#[derive(Clone, Copy, Debug, PartialEq, Eq, Structural)]
pub struct Hours {
    pub bits: u32,
}

impl Hours {
    /// The sign bit is set.
    pub open spec fn sign(self) -> bool {
        self.bits >= 0x8000_0000
    }

    /// The exponent field, from 0 to 255.
    pub open spec fn exponent(self) -> int {
        (self.bits as int / 0x80_0000) % 0x100
    }

    /// The fraction field.
    pub open spec fn fraction(self) -> int {
        self.bits as int % 0x80_0000
    }

    /// The value is not a number: the exponent is all ones and the fraction
    /// is not zero.
    pub open spec fn is_nan(self) -> bool {
        self.exponent() == 255 && self.fraction() != 0
    }

    /// The value is zero, of either sign.
    pub open spec fn is_zero(self) -> bool {
        self.exponent() == 0 && self.fraction() == 0
    }

    /// The value is a number strictly greater than zero (positive infinity
    /// included).
    pub open spec fn is_positive(self) -> bool {
        !self.sign() && !self.is_nan() && !self.is_zero()
    }

    /// The value is a number that is at least zero (either zero counts).
    pub open spec fn is_non_negative(self) -> bool {
        !self.is_nan() && (self.is_zero() || !self.sign())
    }

    /// Zero hours.
    pub fn zero() -> (r: Hours)
        ensures
            r.bits == 0,
            r.is_zero(),
    {
        Hours { bits: 0 }
    }

    /// Wraps the bits of an `f32`.
    pub fn from_bits(bits: u32) -> (r: Hours)
        ensures
            r.bits == bits,
    {
        Hours { bits }
    }

    /// The bits of the `f32` this value stands for.
    pub fn to_bits(self) -> (r: u32)
        ensures
            r == self.bits,
    {
        self.bits
    }

    /// Whether the value is a number strictly greater than zero.
    pub fn positive(self) -> (r: bool)
        ensures
            r == self.is_positive(),
    {
        0 < self.bits && self.bits <= INFINITY_BITS
    }
}

/// A positive value is at least zero; a NaN is neither; and among the
/// patterns, the positive ones are those from 1 up to positive infinity.
pub proof fn lemma_hours_classes(h: Hours)
    ensures
        h.is_positive() ==> h.is_non_negative(),
        h.is_nan() ==> !h.is_non_negative() && !h.is_positive(),
        h.is_positive() <==> 0 < h.bits <= INFINITY_BITS,
        h.is_non_negative() <==> h.bits <= INFINITY_BITS || h.bits == 0x8000_0000,
{
}

} // verus!
