//! Points in time and durations, as carried by the engine.

use vstd::prelude::*;

verus! {

/// A number of seconds, held as the bit pattern of an IEEE 754 binary64 value.
///
/// The engine never computes with a time: it stores what the decoder reported
/// and hands it on in events. The bit pattern keeps the value exact.
#[derive(Clone, Copy, Debug, PartialEq, Eq, Structural)]
pub struct Seconds {
    pub bits: u64,
}

impl Seconds {
    /// The time whose bit pattern is `bits`.
    pub fn from_bits(bits: u64) -> (s: Seconds)
        ensures
            s.bits == bits,
    {
        Seconds { bits }
    }

    /// The bit pattern of this time.
    pub fn to_bits(&self) -> (bits: u64)
        ensures
            bits == self.bits,
    {
        self.bits
    }

    /// Zero seconds: the binary64 value `+0.0`, whose bits are all clear.
    pub fn zero() -> (s: Seconds)
        ensures
            s.bits == 0,
    {
        Seconds { bits: 0 }
    }
}

} // verus!
