//! Real-valued fields, held by their IEEE 754 bit patterns.
//!
//! The service takes and returns real numbers, but nothing in this crate
//! computes with them: each is stored and handed on unchanged. A field of such
//! a type keeps the exact bits of the number, so no value is lost between the
//! caller and the wire.

use vstd::prelude::*;

verus! {

/// The bits of one half in single precision.
pub const SINGLE_HALF: u32 = 0x3F00_0000;

/// The bits of zero in double precision.
pub const DOUBLE_ZERO: u64 = 0;

/// The bits of one half in double precision.
pub const DOUBLE_HALF: u64 = 0x3FE0_0000_0000_0000;

/// The bits of one in double precision.
pub const DOUBLE_ONE: u64 = 0x3FF0_0000_0000_0000;

/// A single-precision number, held by its 32 bits.
#[derive(Clone, Copy, Debug, PartialEq, Eq, Structural)]
pub struct Float32 {
    pub bits: u32,
}

impl Float32 {
    /// The number with the given bit pattern.
    pub fn from_bits(bits: u32) -> (r: Self)
        ensures
            r.bits == bits,
    {
        Float32 { bits }
    }

    /// The bit pattern of the number.
    pub fn to_bits(self) -> (r: u32)
        ensures
            r == self.bits,
    {
        self.bits
    }
}

/// A double-precision number, held by its 64 bits.
#[derive(Clone, Copy, Debug, PartialEq, Eq, Structural)]
pub struct Float64 {
    pub bits: u64,
}

impl Float64 {
    /// The number with the given bit pattern.
    pub fn from_bits(bits: u64) -> (r: Self)
        ensures
            r.bits == bits,
    {
        Float64 { bits }
    }

    /// The bit pattern of the number.
    pub fn to_bits(self) -> (r: u64)
        ensures
            r == self.bits,
    {
        self.bits
    }
}

} // verus!
