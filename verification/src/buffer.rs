//! The multichannel sample buffer the host hands to a processing call: one
//! sequence of encoded samples per channel, all channels the same length.
//! The pipeline mutates it in place and leaves it rectangular on every exit.

use vstd::prelude::*;

verus! {

/// A rectangular collection of per-channel sample sequences, each sample a
/// 32-bit IEEE 754 pattern.
pub struct SampleBuffer {
    channels: Vec<Vec<u32>>,
}

impl View for SampleBuffer {
    type V = Seq<Seq<u32>>;

    closed spec fn view(&self) -> Seq<Seq<u32>> {
        self.channels@.map_values(|c: Vec<u32>| c@)
    }
}

impl SampleBuffer {
    /// Well-formedness: every channel holds the same number of frames.
    pub open spec fn wf(self) -> bool {
        forall|ch: int|
            0 <= ch < self@.len() ==> (#[trigger] self@[ch]).len() == self.spec_frame_len()
    }

    /// The number of frames per channel (zero for a buffer with no channels).
    pub open spec fn spec_frame_len(self) -> int {
        if self@.len() == 0 {
            0
        } else {
            self@[0].len() as int
        }
    }

    /// Builds a buffer from per-channel sample rows; rejects a ragged layout.
    pub fn from_channels(channels: Vec<Vec<u32>>) -> (r: Option<SampleBuffer>)
        ensures
            r is Some <==> (forall|ch: int|
                0 <= ch < channels@.len() ==> (#[trigger] channels@[ch])@.len()
                    == channels@[0]@.len()),
            r matches Some(b) ==> b@ == channels@.map_values(|c: Vec<u32>| c@) && b.wf(),
    {
        let mut ch: usize = 0;
        while ch < channels.len()
            invariant
                ch <= channels@.len(),
                forall|j: int|
                    0 <= j < ch ==> (#[trigger] channels@[j])@.len() == channels@[0]@.len(),
            decreases channels@.len() - ch,
        {
            if channels[ch].len() != channels[0].len() {
                return None;
            }
            ch = ch + 1;
        }
        let b = SampleBuffer { channels };
        proof {
            assert forall|j: int| 0 <= j < b@.len() implies (#[trigger] b@[j]).len()
                == b.spec_frame_len() by {
                assert(b@[j] == b.channels@[j]@);
            }
        }
        Some(b)
    }

    /// The number of channels.
    pub fn channel_count(&self) -> (n: usize)
        ensures
            n == self@.len(),
    {
        self.channels.len()
    }

    /// The number of frames per channel.
    pub fn frame_len(&self) -> (n: usize)
        requires
            self.wf(),
        ensures
            n == self.spec_frame_len(),
    {
        if self.channels.len() == 0 {
            0
        } else {
            self.channels[0].len()
        }
    }

    /// Reads the sample of one channel at one frame.
    pub fn sample(&self, ch: usize, i: usize) -> (s: u32)
        requires
            ch < self@.len(),
            i < self@[ch as int].len(),
        ensures
            s == self@[ch as int][i as int],
    {
        self.channels[ch][i]
    }

    /// Overwrites the sample of one channel at one frame.
    pub fn set_sample(&mut self, ch: usize, i: usize, s: u32)
        requires
            ch < old(self)@.len(),
            i < old(self)@[ch as int].len(),
        ensures
            final(self)@ == old(self)@.update(ch as int, old(self)@[ch as int].update(i as int, s)),
            old(self).wf() ==> final(self).wf(),
            final(self).spec_frame_len() == old(self).spec_frame_len(),
    {
        let row = &mut self.channels[ch];
        row[i] = s;
        proof {
            assert(self@ =~= old(self)@.update(
                ch as int,
                old(self)@[ch as int].update(i as int, s),
            ));
            assert forall|j: int| 0 <= j < self@.len() implies (#[trigger] self@[j]).len()
                == old(self)@[j].len() by {
                if j != ch as int {
                    assert(self@[j] == old(self)@[j]);
                }
            }
        }
    }
}

} // verus!
