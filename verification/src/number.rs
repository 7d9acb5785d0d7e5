//! Real quantities as they travel between the caller and the evaluator.

use vstd::prelude::*;

verus! {

/// A real quantity in SI base units, held as the bit pattern of an IEEE 754
/// double. The engine stores such values, hands them to the expression
/// evaluator and passes its answers on; it never computes on them, so two
/// numbers are equal exactly when their bits are.
#[derive(Clone, Copy, Debug, PartialEq, Eq, Structural)]
pub struct Number {
    pub bits: u64,
}

/// The bits of `0.0`.
pub const ZERO_BITS: u64 = 0;

impl Number {
    /// The number with the given bit pattern.
    pub fn from_bits(bits: u64) -> (r: Number)
        ensures
            r.bits == bits,
    {
        Number { bits }
    }

    /// The bit pattern of the number.
    pub fn to_bits(&self) -> (r: u64)
        ensures
            r == self.bits,
    {
        self.bits
    }

    /// Positive zero.
    pub fn zero() -> (r: Number)
        ensures
            r.bits == ZERO_BITS,
    {
        Number { bits: ZERO_BITS }
    }
}

} // verus!
