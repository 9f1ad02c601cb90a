//! Coordinates as the bit patterns of IEEE 754 single-precision numbers.
//!
//! The library never computes with a coordinate; it only stores it, hands it
//! on and decides whether it is a finite number. All of that can be read off
//! the 32 bits, so a coordinate is kept as those bits.

use vstd::prelude::*;

verus! {

/// The eight exponent bits of a single-precision number.
pub const EXPONENT_MASK: u32 = 0x7F80_0000;

/// The twenty-three fraction bits of a single-precision number.
pub const FRACTION_MASK: u32 = 0x007F_FFFF;

/// The canonical quiet not-a-number pattern.
pub const QUIET_NAN_BITS: u32 = 0x7FC0_0000;

/// One latitude or longitude, as the bits of a single-precision number.
#[derive(Clone, Copy, Debug, PartialEq, Eq, Structural)]
pub struct Coordinate {
    pub bits: u32,
}

impl Coordinate {
    /// The number is neither an infinity nor a not-a-number: its exponent
    /// field is not all ones.
    pub open spec fn finite(self) -> bool {
        self.bits & EXPONENT_MASK != EXPONENT_MASK
    }

    /// The number is a not-a-number: its exponent field is all ones and its
    /// fraction is not zero.
    pub open spec fn nan(self) -> bool {
        self.bits & EXPONENT_MASK == EXPONENT_MASK && self.bits & FRACTION_MASK != 0
    }

    /// The coordinate with the given bit pattern.
    pub fn from_bits(bits: u32) -> (c: Coordinate)
        ensures
            c.bits == bits,
    {
        Coordinate { bits }
    }

    /// The bit pattern of this coordinate.
    pub fn to_bits(self) -> (bits: u32)
        ensures
            bits == self.bits,
    {
        self.bits
    }

    /// The canonical not-a-number coordinate, which stands for "no value".
    pub fn not_a_number() -> (c: Coordinate)
        ensures
            c.bits == QUIET_NAN_BITS,
            c.nan(),
            !c.finite(),
    {
        let c = Coordinate { bits: QUIET_NAN_BITS };
        assert(QUIET_NAN_BITS & EXPONENT_MASK == EXPONENT_MASK && QUIET_NAN_BITS & FRACTION_MASK
            != 0) by (bit_vector);
        c
    }

    /// Whether the coordinate is a finite number.
    pub fn is_finite(self) -> (r: bool)
        ensures
            r == self.finite(),
    {
        self.bits & EXPONENT_MASK != EXPONENT_MASK
    }

    /// Whether the coordinate is a not-a-number.
    pub fn is_nan(self) -> (r: bool)
        ensures
            r == self.nan(),
    {
        self.bits & EXPONENT_MASK == EXPONENT_MASK && self.bits & FRACTION_MASK != 0
    }
}

} // verus!
