//! The dynamic clipper: a per-buffer peak scan and a per-sample clamp.
//!
//! The stage is enabled only while `clip` is below one. When enabled, one
//! scan over every sample of every channel keeps a running low peak and a
//! running high peak, both starting from zero — so a buffer that never
//! leaves one side of zero leaves the other peak at zero, and that threshold
//! is never applied. The caller scales the two peaks by `clip` into the two
//! thresholds. Their names are deliberately inverted, a quirk this design
//! keeps as a contract: `clip_max` is the scaled low peak and acts as a
//! floor, and `clip_min` is the scaled high peak and acts as a ceiling; a
//! threshold whose pattern encodes zero is inert.

use crate::bits::{is_zero, sample_lt, sample_lt_bits, sample_nonzero_bits, ONE_BITS, ZERO_BITS};
use crate::buffer::SampleBuffer;
use vstd::prelude::*;

verus! {

/// What the clamp makes of one sample: a sample below the `clip_max` floor is
/// raised to it, then a sample above the `clip_min` ceiling is lowered to it;
/// a zero-encoded threshold is skipped.
pub open spec fn spec_clip(clip_max: u32, clip_min: u32, s: u32) -> u32 {
    let lifted = if !is_zero(clip_max) && sample_lt(s, clip_max) {
        clip_max
    } else {
        s
    };
    if !is_zero(clip_min) && sample_lt(clip_min, lifted) {
        clip_min
    } else {
        lifted
    }
}

/// Applies the two clamp thresholds to one sample.
pub fn clip_sample(clip_max: u32, clip_min: u32, s: u32) -> (r: u32)
    ensures
        r == spec_clip(clip_max, clip_min, s),
{
    let mut v: u32 = s;
    if sample_nonzero_bits(clip_max) && sample_lt_bits(v, clip_max) {
        v = clip_max;
    }
    if sample_nonzero_bits(clip_min) && sample_lt_bits(clip_min, v) {
        v = clip_min;
    }
    v
}

/// A zero-encoded pair of thresholds leaves every sample unaltered: with
/// `clip` at one the scan never runs, both thresholds keep their zero
/// initialization, and the stage is fully bypassed.
pub proof fn lemma_clip_disabled_identity(s: u32)
    ensures
        spec_clip(ZERO_BITS, ZERO_BITS, s) == s,
{
}

/// The running low peak of a row of samples, folded left to right onto an
/// accumulator: each sample strictly below the accumulator replaces it.
pub open spec fn row_low(row: Seq<u32>, acc: u32) -> u32
    decreases row.len(),
{
    if row.len() == 0 {
        acc
    } else {
        let prev = row_low(row.drop_last(), acc);
        if sample_lt(row.last(), prev) {
            row.last()
        } else {
            prev
        }
    }
}

/// The running high peak of a row, folded the same way: each sample strictly
/// above the accumulator replaces it.
pub open spec fn row_high(row: Seq<u32>, acc: u32) -> u32
    decreases row.len(),
{
    if row.len() == 0 {
        acc
    } else {
        let prev = row_high(row.drop_last(), acc);
        if sample_lt(prev, row.last()) {
            row.last()
        } else {
            prev
        }
    }
}

/// The low peak of a whole buffer: the rows folded channel after channel,
/// starting from zero, in the order the scan walks them.
pub open spec fn buffer_low(b: Seq<Seq<u32>>) -> u32
    decreases b.len(),
{
    if b.len() == 0 {
        ZERO_BITS
    } else {
        row_low(b.last(), buffer_low(b.drop_last()))
    }
}

/// The high peak of a whole buffer, folded the same way.
pub open spec fn buffer_high(b: Seq<Seq<u32>>) -> u32
    decreases b.len(),
{
    if b.len() == 0 {
        ZERO_BITS
    } else {
        row_high(b.last(), buffer_high(b.drop_last()))
    }
}

/// Decides whether the clipping stage runs and, when it does, scans the
/// buffer once for its two peaks. Returns the low and high peak exactly when
/// `clip` is below one, and nothing otherwise.
pub fn clip_scan(clip: u32, buf: &SampleBuffer) -> (r: Option<(u32, u32)>)
    requires
        buf.wf(),
    ensures
        r is Some <==> sample_lt(clip, ONE_BITS),
        r matches Some(peaks) ==> peaks.0 == buffer_low(buf@) && peaks.1 == buffer_high(buf@),
{
    if !sample_lt_bits(clip, ONE_BITS) {
        return None;
    }
    let mut low: u32 = ZERO_BITS;
    let mut high: u32 = ZERO_BITS;
    let mut ch: usize = 0;
    let n_ch = buf.channel_count();
    let n_fr = buf.frame_len();
    while ch < n_ch
        invariant
            buf.wf(),
            n_ch == buf@.len(),
            n_fr == buf.spec_frame_len(),
            ch <= n_ch,
            low == buffer_low(buf@.take(ch as int)),
            high == buffer_high(buf@.take(ch as int)),
        decreases n_ch - ch,
    {
        let mut i: usize = 0;
        let row_start_low: u32 = low;
        let row_start_high: u32 = high;
        while i < n_fr
            invariant
                buf.wf(),
                n_ch == buf@.len(),
                n_fr == buf.spec_frame_len(),
                ch < n_ch,
                i <= n_fr,
                low == row_low(buf@[ch as int].take(i as int), row_start_low),
                high == row_high(buf@[ch as int].take(i as int), row_start_high),
            decreases n_fr - i,
        {
            let s = buf.sample(ch, i);
            proof {
                assert(buf@[ch as int].take(i as int + 1).drop_last() == buf@[ch as int].take(
                    i as int,
                ));
                assert(buf@[ch as int].take(i as int + 1).last() == buf@[ch as int][i as int]);
            }
            if sample_lt_bits(s, low) {
                low = s;
            }
            if sample_lt_bits(high, s) {
                high = s;
            }
            i = i + 1;
        }
        proof {
            assert(buf@.take(ch as int + 1).drop_last() == buf@.take(ch as int));
            assert(buf@.take(ch as int + 1).last() == buf@[ch as int]);
            assert(buf@[ch as int].take(n_fr as int) == buf@[ch as int]);
        }
        ch = ch + 1;
    }
    proof {
        assert(buf@.take(n_ch as int) == buf@);
    }
    Some((low, high))
}

} // verus!
