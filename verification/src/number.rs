//! Real-valued measurements carried through the projection untouched.

use vstd::prelude::*;

verus! {

/// A double-precision measurement (a confidence score or a page fraction),
/// held by its IEEE-754 bit pattern.
///
/// The projection never computes with measurements: it copies them, and it
/// substitutes zero for one that is absent. Holding the bit pattern keeps
/// every value exact, so that a caller gets back what it put in.
#[derive(Clone, Copy, Debug, PartialEq, Eq, Structural)]
pub struct Number {
    pub bits: u64,
}

impl Number {
    /// The measurement whose bit pattern is `bits`.
    pub fn from_bits(bits: u64) -> (n: Number)
        ensures
            n.bits == bits,
    {
        Number { bits }
    }

    /// The bit pattern of this measurement.
    pub fn to_bits(&self) -> (bits: u64)
        ensures
            bits == self.bits,
    {
        self.bits
    }

    /// Positive zero, whose bit pattern is all zeroes.
    pub open spec fn spec_zero() -> Number {
        Number { bits: 0 }
    }

    /// Positive zero: what stands in for an absent measurement.
    #[verifier::when_used_as_spec(spec_zero)]
    pub fn zero() -> (n: Number)
        ensures
            n == Number::spec_zero(),
    {
        Number { bits: 0 }
    }
}

/// The measurement carried by an optional one, where absence reads as zero.
pub open spec fn or_zero(number: Option<Number>) -> Number {
    match number {
        Some(n) => n,
        None => Number::zero(),
    }
}

/// The measurement carried by an optional one, zero where it is absent.
pub fn number_or_zero(number: &Option<Number>) -> (n: Number)
    ensures
        n == or_zero(*number),
{
    match number {
        Some(n) => *n,
        None => Number::zero(),
    }
}

} // verus!
