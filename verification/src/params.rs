//! The read-only parameter snapshot a processing call works from. The host's
//! parameter system owns and mutates the four values and pre-clamps them to
//! their ranges; the pipeline reads them once per buffer and never writes
//! them back.

use crate::bits::ONE_BITS;
use vstd::prelude::*;

verus! {

/// Bit pattern of the value two, the lower bound of the crush range.
pub const CRUSH_MIN_BITS: u32 = 0x4000_0000;

/// Bit pattern of the value thirty-two, the upper bound of the crush range
/// and its default.
pub const CRUSH_MAX_BITS: u32 = 0x4200_0000;

/// Bit pattern of negative zero, the one encoding of a value in the clip
/// range that does not sort below the pattern of one.
pub const NEGATIVE_ZERO_BITS: u32 = 0x8000_0000;

/// The four parameter values of one processing call. `crush` and `clip` are
/// carried as 32-bit IEEE 754 patterns, `redux` and `entropy` as integers.
pub struct ParamSnapshot {
    /// Continuous crush depth in [2, 32]; the quantization grid follows it.
    pub crush: u32,
    /// Integer decimation factor in [1, 100]; one means no decimation.
    pub redux: i32,
    /// Integer entropy bound in [1, 100]; one means no randomization.
    pub entropy: i32,
    /// Continuous clip amount in [0, 1]; one disables the clipping stage.
    pub clip: u32,
}

impl ParamSnapshot {
    /// The ranges the external parameter system keeps the values in. For the
    /// two encoded values the ranges read off the bit patterns: non-negative
    /// encodings order as their patterns do, so crush lies between the
    /// patterns of two and thirty-two, and clip at or below the pattern of
    /// one — or at negative zero, the one other encoding of a value in
    /// [0, 1].
    pub open spec fn valid(self) -> bool {
        &&& CRUSH_MIN_BITS <= self.crush <= CRUSH_MAX_BITS
        &&& 1 <= self.redux <= 100
        &&& 1 <= self.entropy <= 100
        &&& (self.clip <= ONE_BITS || self.clip == NEGATIVE_ZERO_BITS)
    }

    /// Assembles a snapshot, rejecting any value outside its range.
    pub fn snapshot(crush: u32, redux: i32, entropy: i32, clip: u32) -> (r: Option<ParamSnapshot>)
        ensures
            r is Some <==> (CRUSH_MIN_BITS <= crush <= CRUSH_MAX_BITS && 1 <= redux <= 100 && 1
                <= entropy <= 100 && (clip <= ONE_BITS || clip == NEGATIVE_ZERO_BITS)),
            r matches Some(p) ==> p == (ParamSnapshot { crush, redux, entropy, clip }) && p.valid(),
    {
        if CRUSH_MIN_BITS <= crush && crush <= CRUSH_MAX_BITS && 1 <= redux && redux <= 100 && 1
            <= entropy && entropy <= 100 && (clip <= ONE_BITS || clip == NEGATIVE_ZERO_BITS) {
            Some(ParamSnapshot { crush, redux, entropy, clip })
        } else {
            None
        }
    }

    /// The default values: crush fully transparent at thirty-two, no
    /// decimation, no randomization, clipping disabled.
    pub fn default_snapshot() -> (r: ParamSnapshot)
        ensures
            r == (ParamSnapshot {
                crush: CRUSH_MAX_BITS,
                redux: 1i32,
                entropy: 1i32,
                clip: ONE_BITS,
            }),
            r.valid(),
    {
        ParamSnapshot { crush: CRUSH_MAX_BITS, redux: 1, entropy: 1, clip: ONE_BITS }
    }
}

} // verus!
