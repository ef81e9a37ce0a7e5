//! Classification and ordering of IEEE-754 binary64 bit patterns.
//!
//! The analytics pipeline rejects a series as soon as it holds a value that
//! is NaN, infinite, or not strictly positive. On the bit level those tests
//! are exact: the exponent field of a finite value is below the all-ones
//! pattern, and a value is strictly positive when its sign bit is clear and
//! it is not the zero pattern. For the values that survive this filter —
//! positive finite ones — the numeric order of IEEE-754 binary64 coincides
//! with the unsigned integer order of the bit patterns, so the peak
//! tracking and drawdown-episode detection of the metrics module compare
//! the bits directly.

use vstd::prelude::*;

verus! {

/// The exponent field: bits 62..52 of the pattern.
pub open spec fn exponent_field(bits: u64) -> u64 {
    (bits >> 52) & 0x7ff
}

/// The fraction field: bits 51..0 of the pattern.
pub open spec fn fraction_field(bits: u64) -> u64 {
    bits & 0xf_ffff_ffff_ffff
}

/// The sign bit of the pattern, as a boolean.
pub open spec fn sign_is_negative(bits: u64) -> bool {
    (bits >> 63) != 0
}

/// A finite value: the exponent field is not all ones.
pub open spec fn is_finite_bits(bits: u64) -> bool {
    exponent_field(bits) != 0x7ff
}

/// A NaN: all-ones exponent with a nonzero fraction.
pub open spec fn is_nan_bits(bits: u64) -> bool {
    exponent_field(bits) == 0x7ff && fraction_field(bits) != 0
}

/// An infinity: all-ones exponent with a zero fraction.
pub open spec fn is_infinite_bits(bits: u64) -> bool {
    exponent_field(bits) == 0x7ff && fraction_field(bits) == 0
}

/// A value fit for drawdown analysis: finite and strictly positive.
///
/// Strict positivity on the bit level is a clear sign bit together with a
/// nonzero pattern (the zero pattern encodes +0.0, which is excluded).
pub open spec fn is_valid_value_bits(bits: u64) -> bool {
    is_finite_bits(bits) && !sign_is_negative(bits) && bits != 0
}

/// A value is fit for drawdown analysis exactly when it is none of the
/// rejected kinds: not NaN, not infinite, not negative, and not zero.
pub proof fn lemma_valid_value_characterization(bits: u64)
    ensures
        is_valid_value_bits(bits) <==> {
            &&& !is_nan_bits(bits)
            &&& !is_infinite_bits(bits)
            &&& !sign_is_negative(bits)
            &&& bits != 0
        },
{
}

/// Classifies one observation: finite and strictly positive.
pub fn is_valid_value(bits: u64) -> (r: bool)
    ensures
        r == is_valid_value_bits(bits),
{
    let exponent: u64 = (bits >> 52) & 0x7ff;
    let negative: bool = (bits >> 63) != 0;
    exponent != 0x7ff && !negative && bits != 0
}

/// True when every entry of the series is finite and strictly positive.
pub fn all_values_valid(values: &Vec<u64>) -> (r: bool)
    ensures
        r == forall|i: int| 0 <= i < values@.len() ==> is_valid_value_bits(values@[i]),
{
    let mut k: usize = 0;
    while k < values.len()
        invariant
            k <= values@.len(),
            forall|i: int| 0 <= i < k ==> is_valid_value_bits(values@[i]),
        decreases values@.len() - k,
    {
        if !is_valid_value(values[k]) {
            return false;
        }
        k += 1;
    }
    true
}

} // verus!
