//! A bit-level model of the 32-bit IEEE 754 samples that the pipeline
//! compares, and a verified ordering test over it.
//!
//! The pipeline never does arithmetic on a sample's numeric value; it only
//! compares samples and moves them around. A sample therefore travels through
//! the library as its raw bit pattern, a `u32`, and the one operation the
//! library needs — the standard `<` test between two samples — is computed
//! here directly from the bit patterns. IEEE 754 orders two encoded values by
//! sign and magnitude: the low 31 bits are the magnitude, the top bit the
//! sign, the two zero encodings are numerically equal, and a NaN (magnitude
//! above that of infinity) compares false against everything.

use vstd::prelude::*;

verus! {

/// Bit pattern of the value one. A `clip` parameter with this pattern
/// disables the clipping stage.
pub const ONE_BITS: u32 = 0x3F80_0000;

/// Bit pattern of (positive) zero, the initial value of the peak scan
/// accumulators and of the decimator's held cell.
pub const ZERO_BITS: u32 = 0x0000_0000;

/// The magnitude half of an encoded sample: everything below the sign bit.
pub open spec fn magnitude(bits: u32) -> u32 {
    bits % 0x8000_0000u32
}

/// Whether the sign bit of an encoded sample is set.
pub open spec fn is_negative(bits: u32) -> bool {
    bits >= 0x8000_0000u32
}

/// A NaN encoding: magnitude strictly above the magnitude of infinity.
pub open spec fn is_nan(bits: u32) -> bool {
    magnitude(bits) > 0x7F80_0000u32
}

/// Either encoding of zero; the two are numerically equal, and a threshold
/// with either pattern leaves the clipping stage inert.
pub open spec fn is_zero(bits: u32) -> bool {
    magnitude(bits) == 0
}

/// The signed key that orders encoded samples: negative encodings sort below
/// positive ones, larger magnitudes sort further from zero, and both zero
/// encodings share the key 0.
pub open spec fn order_key(bits: u32) -> int {
    if is_negative(bits) {
        -(magnitude(bits) as int)
    } else {
        magnitude(bits) as int
    }
}

/// What the standard `<` test returns on two encoded samples: false whenever
/// either side is a NaN, otherwise the order of the signed keys.
pub open spec fn sample_lt(a: u32, b: u32) -> bool {
    !is_nan(a) && !is_nan(b) && order_key(a) < order_key(b)
}

/// The `<` test, computed from the bit patterns.
pub fn sample_lt_bits(a: u32, b: u32) -> (r: bool)
    ensures
        r == sample_lt(a, b),
{
    let mag_a: u32 = a % 0x8000_0000u32;
    let mag_b: u32 = b % 0x8000_0000u32;
    if mag_a > 0x7F80_0000u32 || mag_b > 0x7F80_0000u32 {
        return false;
    }
    let key_a: i64 = if a >= 0x8000_0000u32 {
        -(mag_a as i64)
    } else {
        mag_a as i64
    };
    let key_b: i64 = if b >= 0x8000_0000u32 {
        -(mag_b as i64)
    } else {
        mag_b as i64
    };
    key_a < key_b
}

/// Whether an encoded sample differs from zero under the standard `!=` test:
/// true for every pattern but the two zero encodings (a NaN is unequal to
/// zero as well).
pub fn sample_nonzero_bits(a: u32) -> (r: bool)
    ensures
        r == !is_zero(a),
{
    a % 0x8000_0000u32 != 0u32
}

/// The `<` test never relates a sample to itself, so a threshold parameter
/// equal to one never enables the clipping stage.
pub proof fn lemma_lt_irreflexive(a: u32)
    ensures
        !sample_lt(a, a),
{
}

} // verus!
