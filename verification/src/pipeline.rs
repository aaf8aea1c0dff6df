//! The per-sample pass of a processing call: a single deterministic walk over
//! every frame and, inside each frame, every channel, applying the
//! sample-and-hold decimator and then the clamp to each already-quantized
//! sample in place.
//!
//! The caller prepares the buffer first — quantizing each sample to the grid
//! of the effective crush depth and scaling the scanned peaks into the two
//! clamp thresholds, both plain per-sample arithmetic on the numeric values —
//! and this pass pins down exactly which pattern every position ends with.

use crate::bits::{sample_lt, ONE_BITS, ZERO_BITS};
use crate::buffer::SampleBuffer;
use crate::clip::{clip_sample, spec_clip};
use crate::decimate::{capture_frame, spec_decimated};
use crate::ProcessStatus;
use vstd::prelude::*;

verus! {

/// What one position of the quantized buffer `q` ends the call as: its
/// decimated sample, clamped.
pub open spec fn spec_output(q: Seq<Seq<u32>>, redux: int, clip_max: u32, clip_min: u32, ch: int, i: int) -> u32 {
    spec_clip(clip_max, clip_min, spec_decimated(q, redux, ch, i))
}

/// How the frame counter's residue moves from one frame to the next.
proof fn lemma_mod_step(i: int, r: int)
    requires
        r > 1,
        0 <= i,
    ensures
        i % r == r - 1 ==> (i + 1) % r == 0,
        i % r < r - 1 ==> (i + 1) % r == i % r + 1,
{
    assert(i % r == r - 1 ==> (i + 1) % r == 0) by (nonlinear_arith)
        requires
            r > 1,
            0 <= i,
    ;
    assert(i % r < r - 1 ==> (i + 1) % r == i % r + 1) by (nonlinear_arith)
        requires
            r > 1,
            0 <= i,
    ;
}

/// With `redux` at one the whole pass reduces to the clamp applied to each
/// quantized sample where it stands: decimation drops out sample-for-sample.
pub proof fn lemma_redux_one_pipeline(
    q: Seq<Seq<u32>>,
    clip_max: u32,
    clip_min: u32,
    ch: int,
    i: int,
)
    ensures
        spec_output(q, 1, clip_max, clip_min, ch, i) == spec_clip(clip_max, clip_min, q[ch][i]),
{
}

/// With the clip parameter at the pattern of one, the stage is never enabled
/// — the `<` test never relates a value to itself — so both thresholds keep their
/// zero initialization and the clipping stage alters nothing: the pass's
/// output is the decimated quantized signal alone, whatever the buffer holds.
pub proof fn lemma_clip_one_bypassed(q: Seq<Seq<u32>>, redux: int, ch: int, i: int)
    ensures
        !sample_lt(ONE_BITS, ONE_BITS),
        spec_output(q, redux, ZERO_BITS, ZERO_BITS, ch, i) == spec_decimated(q, redux, ch, i),
{
}

/// Runs the per-sample pass over a prepared buffer: each position receives
/// its decimated, clamped sample, and the call reports normal completion —
/// the pipeline defines no failure outcome.
pub fn process_prepared(
    buf: &mut SampleBuffer,
    redux: i32,
    clip_max: u32,
    clip_min: u32,
) -> (status: ProcessStatus)
    requires
        old(buf).wf(),
        1 <= redux,
    ensures
        final(buf).wf(),
        final(buf)@.len() == old(buf)@.len(),
        final(buf).spec_frame_len() == old(buf).spec_frame_len(),
        forall|ch: int, i: int|
            0 <= ch < old(buf)@.len() && 0 <= i < old(buf).spec_frame_len()
                ==> final(buf)@[ch][i] == spec_output(
                old(buf)@,
                redux as int,
                clip_max,
                clip_min,
                ch,
                i,
            ),
        status == ProcessStatus::Normal,
{
    let n_ch = buf.channel_count();
    let n_fr = buf.frame_len();
    let redux_step: usize = redux as usize;
    let mut held: u32 = ZERO_BITS;
    let mut i: usize = 0;
    while i < n_fr
        invariant
            buf.wf(),
            n_ch == buf@.len(),
            n_fr == buf.spec_frame_len(),
            n_ch == old(buf)@.len(),
            n_fr == old(buf).spec_frame_len(),
            old(buf).wf(),
            redux_step == redux,
            1 <= redux,
            i <= n_fr,
            forall|c: int, j: int|
                0 <= c < n_ch && i <= j < n_fr ==> buf@[c][j] == old(buf)@[c][j],
            forall|c: int, j: int|
                0 <= c < n_ch && 0 <= j < i ==> buf@[c][j] == spec_output(
                    old(buf)@,
                    redux as int,
                    clip_max,
                    clip_min,
                    c,
                    j,
                ),
            redux > 1 && n_ch > 0 && i > 0 ==> held == old(buf)@[n_ch - 1][capture_frame(
                i - 1,
                redux as int,
            )],
        decreases n_fr - i,
    {
        proof {
            if redux > 1 && i % redux_step != 0 {
                lemma_mod_step(i - 1, redux as int);
            }
        }
        let mut ch: usize = 0;
        while ch < n_ch
            invariant
                buf.wf(),
                n_ch == buf@.len(),
                n_fr == buf.spec_frame_len(),
                n_ch == old(buf)@.len(),
                n_fr == old(buf).spec_frame_len(),
                old(buf).wf(),
                redux_step == redux,
                1 <= redux,
                i < n_fr,
                ch <= n_ch,
                forall|c: int, j: int|
                    0 <= c < n_ch && i < j < n_fr ==> buf@[c][j] == old(buf)@[c][j],
                forall|c: int| ch <= c < n_ch ==> buf@[c][i as int] == old(buf)@[c][i as int],
                forall|c: int, j: int|
                    0 <= c < n_ch && 0 <= j < i ==> buf@[c][j] == spec_output(
                        old(buf)@,
                        redux as int,
                        clip_max,
                        clip_min,
                        c,
                        j,
                    ),
                forall|c: int|
                    0 <= c < ch ==> buf@[c][i as int] == spec_output(
                        old(buf)@,
                        redux as int,
                        clip_max,
                        clip_min,
                        c,
                        i as int,
                    ),
                redux > 1 && i % redux_step == 0 && ch > 0 ==> held == old(buf)@[ch - 1][i as int],
                redux > 1 && i % redux_step == 0 && ch == 0 && n_ch > 0 && i > 0 ==> held == old(
                    buf,
                )@[n_ch - 1][capture_frame(i - 1, redux as int)],
                redux > 1 && n_ch > 0 && i % redux_step != 0 ==> held == old(buf)@[n_ch
                    - 1][capture_frame(i as int, redux as int)],
            decreases n_ch - ch,
        {
            let s = buf.sample(ch, i);
            let mut v: u32 = s;
            if redux > 1 {
                if i % redux_step != 0 {
                    v = held;
                } else {
                    held = v;
                }
            }
            let out = clip_sample(clip_max, clip_min, v);
            buf.set_sample(ch, i, out);
            ch = ch + 1;
        }
        i = i + 1;
    }
    ProcessStatus::Normal
}

} // verus!
