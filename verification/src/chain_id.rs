//! The chain identifier: an unsigned 256-bit integer.
//!
//! Target-chain convention requires values larger than 64 bits, so the
//! identifier is held as two 128-bit halves whose mathematical value is
//! `low + high * 2^128`.

use vstd::prelude::*;

verus! {

/// An unsigned 256-bit chain identifier, split into two 128-bit halves.
#[derive(Clone, Copy, Debug, PartialEq, Eq, Structural)]
pub struct ChainIdentifier {
    /// The least significant 128 bits.
    pub low: u128,
    /// The most significant 128 bits.
    pub high: u128,
}

impl ChainIdentifier {
    /// The mathematical value of the identifier.
    pub open spec fn as_int(self) -> int {
        self.low as int + self.high as int * 0x100000000000000000000000000000000
    }

    /// Builds an identifier from a 64-bit value, without truncation.
    pub fn from_u64(value: u64) -> (r: ChainIdentifier)
        ensures
            r.as_int() == value as int,
    {
        ChainIdentifier { low: value as u128, high: 0 }
    }

    /// Builds an identifier from a 128-bit value, without truncation.
    pub fn from_u128(value: u128) -> (r: ChainIdentifier)
        ensures
            r.as_int() == value as int,
    {
        ChainIdentifier { low: value, high: 0 }
    }
}

} // verus!
