//! Measured values, held by their bit patterns.
//!
//! The portal reports readings as IEEE 754 binary numbers. The library only
//! ever copies them, tests their sign and takes their magnitude, all of which
//! are exact operations on the bit pattern.
use vstd::prelude::*;

verus! {

/// The bit that carries the sign of a binary64 number.
pub const SIGN_BIT: u64 = 0x8000_0000_0000_0000;

/// The bit pattern of negative infinity, the largest pattern that is still a
/// number below zero; every pattern above it is a negative NaN.
pub const NEGATIVE_INFINITY: u64 = 0xFFF0_0000_0000_0000;

/// A binary64 reading.
#[derive(Clone, Copy, Debug, PartialEq, Eq, Structural)]
pub struct Double {
    pub bits: u64,
}

/// A binary32 reading.
#[derive(Clone, Copy, Debug, PartialEq, Eq, Structural)]
pub struct Single {
    pub bits: u32,
}

impl Double {
    /// Whether the reading compares below zero: its sign is set and it is
    /// neither negative zero nor a NaN.
    pub open spec fn below_zero(self) -> bool {
        SIGN_BIT < self.bits <= NEGATIVE_INFINITY
    }

    /// The reading with its sign cleared.
    pub open spec fn magnitude(self) -> Double {
        if self.bits >= SIGN_BIT {
            Double { bits: (self.bits - SIGN_BIT) as u64 }
        } else {
            self
        }
    }

    /// Whether the reading is positive or negative zero.
    pub open spec fn is_zero(self) -> bool {
        self.bits == 0 || self.bits == SIGN_BIT
    }

    /// Positive zero.
    pub fn zero() -> (r: Double)
        ensures
            r.bits == 0,
    {
        Double { bits: 0 }
    }

    /// The reading with this bit pattern.
    pub fn from_bits(bits: u64) -> (r: Double)
        ensures
            r.bits == bits,
    {
        Double { bits }
    }

    /// The bit pattern of the reading.
    pub fn to_bits(self) -> (r: u64)
        ensures
            r == self.bits,
    {
        self.bits
    }

    /// Whether the reading compares below zero.
    pub fn is_below_zero(self) -> (r: bool)
        ensures
            r == self.below_zero(),
    {
        SIGN_BIT < self.bits && self.bits <= NEGATIVE_INFINITY
    }

    /// The size of the reading: the reading with its sign cleared.
    pub fn abs(self) -> (r: Double)
        ensures
            r == self.magnitude(),
            r.bits < SIGN_BIT,
    {
        if self.bits >= SIGN_BIT {
            Double { bits: self.bits - SIGN_BIT }
        } else {
            self
        }
    }
}

impl Single {
    /// The reading with this bit pattern.
    pub fn from_bits(bits: u32) -> (r: Single)
        ensures
            r.bits == bits,
    {
        Single { bits }
    }

    /// The bit pattern of the reading.
    pub fn to_bits(self) -> (r: u32)
        ensures
            r == self.bits,
    {
        self.bits
    }
}

} // verus!
