//! Angles in degrees.
//!
//! An angle is kept as the bit pattern of an IEEE 754 single-precision
//! number: one sign bit, eight exponent bits, twenty-three fraction bits.
//! Whoever reads a number from text or draws with it converts at the edge;
//! what this module decides about an angle, it decides on the pattern.

use vstd::prelude::*;

verus! {

/// The sign bit of a pattern, as a number.
pub const SIGN_BIT: u32 = 0x8000_0000;

/// The pattern of positive infinity. A larger magnitude is not a number.
pub const INFINITY_BITS: u32 = 0x7f80_0000;

/// An angle in degrees, as a single-precision bit pattern.
#[derive(Clone, Copy, Debug)]
pub struct Degrees {
    pub bits: u32,
}

impl Degrees {
    /// The pattern with its sign bit cleared.
    pub open spec fn magnitude(self) -> int {
        if self.bits >= SIGN_BIT {
            self.bits - SIGN_BIT
        } else {
            self.bits as int
        }
    }

    /// The pattern stands for no number: all exponent bits set and a fraction
    /// that is not zero.
    pub open spec fn is_nan(self) -> bool {
        self.magnitude() > INFINITY_BITS
    }

    /// The pattern is one of the two zeros.
    pub open spec fn is_zero(self) -> bool {
        self.magnitude() == 0
    }

    /// The two patterns stand for the same number, as IEEE 754 compares
    /// them: what is not a number equals nothing, itself included, the two
    /// zeros are equal, and every other number has one pattern.
    pub open spec fn same_number(self, other: Degrees) -> bool {
        &&& !self.is_nan()
        &&& !other.is_nan()
        &&& (self.bits == other.bits || (self.is_zero() && other.is_zero()))
    }

    /// The angle with the given pattern.
    pub fn from_bits(bits: u32) -> (angle: Degrees)
        ensures
            angle.bits == bits,
    {
        Degrees { bits }
    }

    /// The angle's pattern.
    pub fn to_bits(self) -> (bits: u32)
        ensures
            bits == self.bits,
    {
        self.bits
    }

    fn cleared_sign(self) -> (magnitude: u32)
        ensures
            magnitude == self.magnitude(),
    {
        if self.bits >= SIGN_BIT {
            self.bits - SIGN_BIT
        } else {
            self.bits
        }
    }

    /// Whether the angle is not a number.
    pub fn not_a_number(self) -> (nan: bool)
        ensures
            nan == self.is_nan(),
    {
        self.cleared_sign() > INFINITY_BITS
    }
}

impl PartialEq for Degrees {
    /// Equality of the numbers, not of the patterns.
    fn eq(&self, other: &Degrees) -> (equal: bool) {
        let mine: u32 = self.cleared_sign();
        let theirs: u32 = other.cleared_sign();
        mine <= INFINITY_BITS && theirs <= INFINITY_BITS && (self.bits == other.bits || (mine == 0
            && theirs == 0))
    }
}

impl vstd::std_specs::cmp::PartialEqSpecImpl for Degrees {
    open spec fn obeys_eq_spec() -> bool {
        true
    }

    open spec fn eq_spec(&self, other: &Degrees) -> bool {
        self.same_number(*other)
    }
}

} // verus!
