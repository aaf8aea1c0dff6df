//! The sample-and-hold decimator: a zero-order hold over the buffer's
//! traversal order.
//!
//! The per-sample loop walks frame by frame and, inside a frame, channel by
//! channel; the position test uses the frame index, which both channels of a
//! frame share. At a frame whose index is a multiple of `redux` every
//! channel's quantized sample passes through and is written, channel after
//! channel, into one held cell shared by all channels — so the cell ends the
//! frame holding the last channel's sample. At every other frame each
//! channel's sample is overwritten with the held cell's value. With `redux`
//! at one the stage passes everything through untouched.

use vstd::prelude::*;

verus! {

/// The frame the held cell was last captured at, seen from frame `i`: the
/// largest multiple of `redux` that does not exceed `i`.
pub open spec fn capture_frame(i: int, redux: int) -> int {
    i - i % redux
}

/// What the decimation stage makes of the quantized buffer `q` at channel
/// `ch`, frame `i`: at a capture frame (and always when `redux` is one) the
/// sample itself; at a held frame the last channel's sample from the capture
/// frame.
pub open spec fn spec_decimated(q: Seq<Seq<u32>>, redux: int, ch: int, i: int) -> u32 {
    if redux <= 1 || i % redux == 0 {
        q[ch][i]
    } else {
        q[q.len() - 1][capture_frame(i, redux)]
    }
}

/// With `redux` at one, decimation is a no-op: every position keeps the
/// quantized sample that stood there.
pub proof fn lemma_redux_one_noop(q: Seq<Seq<u32>>, ch: int, i: int)
    ensures
        spec_decimated(q, 1, ch, i) == q[ch][i],
{
}

/// With `redux` above one, a frame whose index is not a multiple of `redux`
/// reads the most recently held sample: the capture frame is a multiple of
/// `redux`, no later frame up to `i` is one, and every channel receives the
/// last channel's sample from it.
pub proof fn lemma_held_frames(q: Seq<Seq<u32>>, redux: int, ch: int, i: int)
    requires
        redux > 1,
        0 <= i,
        i % redux != 0,
    ensures
        spec_decimated(q, redux, ch, i) == q[q.len() - 1][capture_frame(i, redux)],
        0 <= capture_frame(i, redux) < i,
        capture_frame(i, redux) % redux == 0,
        forall|j: int| capture_frame(i, redux) < j <= i ==> #[trigger] (j % redux) != 0,
{
    let c = capture_frame(i, redux);
    assert(i % redux <= i) by (nonlinear_arith)
        requires
            redux > 1,
            0 <= i,
    ;
    assert(c % redux == 0) by (nonlinear_arith)
        requires
            c == i - i % redux,
            redux > 1,
    ;
    assert forall|j: int| c < j <= i implies #[trigger] (j % redux) != 0 by {
        assert(j % redux == j - c) by (nonlinear_arith)
            requires
                c % redux == 0,
                0 < j - c < redux,
        ;
    }
}

/// A capture frame keeps its own quantized sample on every channel.
pub proof fn lemma_capture_frames_pass_through(q: Seq<Seq<u32>>, redux: int, ch: int, i: int)
    requires
        i % redux == 0,
    ensures
        spec_decimated(q, redux, ch, i) == q[ch][i],
{
}

} // verus!
