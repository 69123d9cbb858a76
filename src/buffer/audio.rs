//! Interleaved multi-channel sample storage.
use vstd::prelude::*;

use crate::buffer::realtime::{all_cloned_from, all_default, RealtimeBuffer};
use crate::markers::{HeapFree, NonBlocking, RealtimeSafe};
use crate::types::audio::{channels_of, ChannelCount};

verus! {

/// Position of `(frame, channel)` in interleaved storage.
pub open spec fn interleaved_index(frame: int, channel: int, channels: int) -> int {
    frame * channels + channel
}

/// Interleaved samples addressed by `(frame, channel)`: frame `f` occupies
/// positions `f * channels .. (f + 1) * channels`.
///
/// The sample type is a parameter: the buffer only moves samples around.
#[derive(Clone)]
pub struct AudioBuffer<S> {
    data: RealtimeBuffer<S>,
    channels: ChannelCount,
    frames: usize,
}

impl<S> AudioBuffer<S> {
    /// All samples, frame after frame.
    pub closed spec fn samples_view(&self) -> Seq<S> {
        self.data@
    }

    /// Number of frames.
    pub closed spec fn spec_frames(&self) -> nat {
        self.frames as nat
    }

    /// Channel layout of each frame.
    pub closed spec fn spec_channels(&self) -> ChannelCount {
        self.channels
    }

    /// Number of channels per frame.
    pub open spec fn channel_count(&self) -> nat {
        channels_of(self.spec_channels()) as nat
    }

    /// The storage holds exactly `frames * channels` valid samples.
    pub closed spec fn wf(&self) -> bool {
        &&& self.data.wf()
        &&& self.data@.len() == self.data.spec_capacity()
        &&& self.data@.len() == self.frames * channels_of(self.channels)
        &&& self.frames * channels_of(self.channels) <= usize::MAX
    }

    /// The sample at `(frame, channel)` in the model.
    pub open spec fn sample_at(&self, frame: int, channel: int) -> S {
        self.samples_view()[interleaved_index(frame, channel, self.channel_count() as int)]
    }
}

impl<S: Copy + Default> AudioBuffer<S> {
    /// Creates a buffer of `frames` frames of `channels` channels, every
    /// sample set to the default value (silence).
    pub fn new(frames: usize, channels: ChannelCount) -> (r: AudioBuffer<S>)
        requires
            frames * channels_of(channels) <= usize::MAX,
        ensures
            r.wf(),
            r.spec_frames() == frames,
            r.spec_channels() == channels,
            r.samples_view().len() == frames * channels_of(channels),
            all_default(r.samples_view()),
    {
        let total = frames * channels.count_usize();
        let d = S::default();
        let data = RealtimeBuffer::with_value(total, d);
        proof {
            assert(call_ensures(S::default, (), d) && all_cloned_from(data@, d));
            assert(all_default(data@));
        }
        AudioBuffer { data, channels, frames }
    }

    /// Returns the number of frames.
    pub fn frames(&self) -> (r: usize)
        ensures
            r == self.spec_frames(),
    {
        self.frames
    }

    /// Returns the channel count.
    pub fn channels(&self) -> (r: ChannelCount)
        ensures
            r == self.spec_channels(),
    {
        self.channels
    }

    /// Returns the total number of samples.
    pub fn sample_count(&self) -> (r: usize)
        requires
            self.wf(),
        ensures
            r == self.samples_view().len(),
            r == self.spec_frames() * self.channel_count(),
    {
        self.data.len()
    }

    /// Returns the sample at `(frame, channel)`, or `None` when either index
    /// is out of range.
    pub fn get_sample(&self, frame: usize, channel: usize) -> (r: Option<S>)
        requires
            self.wf(),
        ensures
            frame >= self.spec_frames() || channel >= self.channel_count() ==> r is None,
            frame < self.spec_frames() && channel < self.channel_count() ==> r == Some(
                self.sample_at(frame as int, channel as int),
            ),
    {
        let ch = self.channels.count_usize();
        if frame < self.frames && channel < ch {
            proof {
                lemma_index_in_bounds(frame as int, channel as int, self.frames as int, ch as int);
            }
            let index = frame * ch + channel;
            match self.data.get(index) {
                Some(s) => Some(*s),
                None => None,
            }
        } else {
            None
        }
    }

    /// Writes the sample at `(frame, channel)`; does nothing when either
    /// index is out of range.
    pub fn set_sample(&mut self, frame: usize, channel: usize, sample: S)
        requires
            old(self).wf(),
        ensures
            final(self).wf(),
            final(self).spec_frames() == old(self).spec_frames(),
            final(self).spec_channels() == old(self).spec_channels(),
            final(self).samples_view() == if frame < old(self).spec_frames() && channel
                < old(self).channel_count() {
                old(self).samples_view().update(
                    interleaved_index(frame as int, channel as int, old(self).channel_count() as int),
                    sample,
                )
            } else {
                old(self).samples_view()
            },
    {
        let ch = self.channels.count_usize();
        if frame < self.frames && channel < ch {
            proof {
                lemma_index_in_bounds(frame as int, channel as int, self.frames as int, ch as int);
            }
            let index = frame * ch + channel;
            let _ = self.data.set(index, sample);
        }
    }

    /// Returns the samples of one frame, or `None` past the last frame.
    pub fn frame(&self, frame_index: usize) -> (r: Option<&[S]>)
        requires
            self.wf(),
        ensures
            frame_index < self.spec_frames() <==> r is Some,
            r is Some ==> r->0@ == self.samples_view().subrange(
                interleaved_index(frame_index as int, 0, self.channel_count() as int),
                interleaved_index(frame_index as int + 1, 0, self.channel_count() as int),
            ),
    {
        let ch = self.channels.count_usize();
        if frame_index < self.frames {
            proof {
                lemma_index_in_bounds(frame_index as int, ch as int - 1, self.frames as int, ch as int);
            }
            let start = frame_index * ch;
            let end = start + ch;
            Some(vstd::slice::slice_subrange(self.data.as_slice(), start, end))
        } else {
            None
        }
    }

    /// Returns the samples of one frame mutably, or `None` past the last
    /// frame. Once the borrow ends the buffer holds the frame's new samples
    /// in place of the old ones, the rest unchanged.
    pub fn frame_mut(&mut self, frame_index: usize) -> (r: Option<&mut [S]>)
        requires
            old(self).wf(),
        ensures
            frame_index < old(self).spec_frames() <==> r is Some,
            r is None ==> *final(self) == *old(self),
            r is Some ==> {
                let start = interleaved_index(frame_index as int, 0, old(self).channel_count() as int);
                let end = interleaved_index(frame_index as int + 1, 0, old(self).channel_count() as int);
                &&& r->0@ == old(self).samples_view().subrange(start, end)
                &&& final(self).spec_frames() == old(self).spec_frames()
                &&& final(self).spec_channels() == old(self).spec_channels()
                &&& (final(r->0)@.len() == r->0@.len() ==> {
                    &&& final(self).wf()
                    &&& final(self).samples_view() == old(self).samples_view().take(start)
                        + final(r->0)@ + old(self).samples_view().skip(end)
                })
            },
    {
        let ch = self.channels.count_usize();
        if frame_index < self.frames {
            proof {
                lemma_index_in_bounds(frame_index as int, ch as int - 1, self.frames as int, ch as int);
            }
            let start = frame_index * ch;
            let full = self.data.as_full_mut_slice();
            let (_front, rest) = full.split_at_mut(start);
            let (frame, _back) = rest.split_at_mut(ch);
            Some(frame)
        } else {
            None
        }
    }

    /// Returns all samples mutably, frame after frame. Once the borrow ends
    /// the buffer holds what the slice holds.
    pub fn samples_mut(&mut self) -> (r: &mut [S])
        requires
            old(self).wf(),
        ensures
            r@ == old(self).samples_view(),
            final(self).spec_frames() == old(self).spec_frames(),
            final(self).spec_channels() == old(self).spec_channels(),
            final(r)@.len() == r@.len() ==> final(self).wf() && final(self).samples_view()
                == final(r)@,
    {
        self.data.as_full_mut_slice()
    }

    /// Returns all samples, frame after frame.
    pub fn samples(&self) -> (r: &[S])
        requires
            self.wf(),
        ensures
            r@ == self.samples_view(),
    {
        self.data.as_slice()
    }

    /// Resets every sample to the default value (silence) without
    /// reallocating.
    pub fn silence(&mut self)
        requires
            old(self).wf(),
        ensures
            final(self).wf(),
            final(self).spec_frames() == old(self).spec_frames(),
            final(self).spec_channels() == old(self).spec_channels(),
            final(self).samples_view().len() == old(self).samples_view().len(),
            all_default(final(self).samples_view()),
    {
        let d = S::default();
        self.data.fill(d);
    }
}

/// For `f < frames` and `c < channels`, `f * channels + c` lies inside the
/// `frames * channels` samples.
proof fn lemma_index_in_bounds(f: int, c: int, frames: int, channels: int)
    requires
        0 <= f < frames,
        0 <= c < channels,
    ensures
        0 <= f * channels + c < frames * channels,
        f * channels + channels <= frames * channels,
        (f + 1) * channels == f * channels + channels,
{
    assert(f * channels + channels <= frames * channels) by (nonlinear_arith)
        requires 0 <= f < frames, 0 <= c < channels;
    assert((f + 1) * channels == f * channels + channels) by (nonlinear_arith);
    assert(0 <= f * channels) by (nonlinear_arith)
        requires 0 <= f, 0 <= c < channels;
}

impl<S: Send + 'static> RealtimeSafe for AudioBuffer<S> {}

impl<S> HeapFree for AudioBuffer<S> {}

impl<S> NonBlocking for AudioBuffer<S> {}

} // verus!
