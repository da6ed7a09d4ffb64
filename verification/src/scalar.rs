//! Scalars of the physics world, carried by their bit patterns.
//!
//! The physics engine computes in 32-bit IEEE-754 numbers. This library never
//! computes with them: it stores them, hands them to the engine and reads them
//! back. A scalar is therefore held as the 32 bits that encode it: one sign
//! bit, eight exponent bits, twenty-three fraction bits. Two scalars are equal
//! when their bits are.

use vstd::prelude::*;

verus! {

/// A 32-bit IEEE-754 number, held by its bit pattern.
#[derive(Clone, Copy, Debug, PartialEq, Eq, Structural)]
pub struct Scalar {
    pub bits: u32,
}

/// Bit pattern of `0.0`.
pub const ZERO_BITS: u32 = 0;

/// Mask of the sign bit.
pub const SIGN_MASK: u32 = 0x8000_0000;

/// Bit pattern of positive infinity: all exponent bits set, no fraction bit.
pub const INFINITY_BITS: u32 = 0x7F80_0000;

/// The scalar `0.0`.
pub open spec fn zero() -> Scalar {
    Scalar { bits: ZERO_BITS }
}

impl Scalar {
    /// The sign bit: 1 for a negative number.
    pub open spec fn sign(self) -> u32 {
        self.bits >> 31
    }

    /// The eight exponent bits.
    pub open spec fn exponent(self) -> u32 {
        (self.bits >> 23) & 0xFF
    }

    /// The twenty-three fraction bits.
    pub open spec fn fraction(self) -> u32 {
        self.bits & 0x7F_FFFF
    }

    /// Neither infinite nor not-a-number: the exponent bits are not all set.
    pub open spec fn spec_is_finite(self) -> bool {
        self.exponent() != 0xFF
    }

    /// Finite and strictly greater than zero: no sign, and some exponent or
    /// fraction bit set.
    pub open spec fn spec_is_positive(self) -> bool {
        &&& self.sign() == 0
        &&& self.spec_is_finite()
        &&& (self.exponent() != 0 || self.fraction() != 0)
    }

    /// The scalar with the given bit pattern.
    pub fn from_bits(bits: u32) -> (s: Scalar)
        ensures
            s.bits == bits,
    {
        Scalar { bits }
    }

    /// The bit pattern of this scalar.
    pub fn to_bits(self) -> (bits: u32)
        ensures
            bits == self.bits,
    {
        self.bits
    }

    /// The scalar `0.0`.
    pub fn zero() -> (s: Scalar)
        ensures
            s == zero(),
    {
        Scalar { bits: ZERO_BITS }
    }

    /// Whether this scalar is neither infinite nor not-a-number.
    pub fn is_finite(self) -> (r: bool)
        ensures
            r == self.spec_is_finite(),
    {
        let bits = self.bits;
        assert((bits & !0x8000_0000u32 < 0x7F80_0000u32) == ((bits >> 23) & 0xFF != 0xFF))
            by (bit_vector);
        bits & !SIGN_MASK < INFINITY_BITS
    }

    /// Whether this scalar is finite and strictly greater than zero.
    pub fn is_positive(self) -> (r: bool)
        ensures
            r == self.spec_is_positive(),
    {
        let bits = self.bits;
        assert((0 < bits && bits < 0x7F80_0000u32) == {
            &&& bits >> 31 == 0
            &&& (bits >> 23) & 0xFF != 0xFF
            &&& ((bits >> 23) & 0xFF != 0 || bits & 0x7F_FFFF != 0)
        }) by (bit_vector);
        0 < bits && bits < INFINITY_BITS
    }
}

} // verus!
