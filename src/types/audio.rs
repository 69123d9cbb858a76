//! Audio format and buffer related types.
use vstd::prelude::*;

use crate::error::AudioEngineError;
use crate::types::sample::{rate_hz, SampleRate};

verus! {

/// Number of audio channels.
#[derive(Debug, Clone, Copy, PartialEq, Eq, Hash, Structural)]
pub enum ChannelCount {
    /// One channel.
    Mono,
    /// Two channels.
    Stereo,
    /// Four channels.
    Quad,
    /// 5.1 surround, six channels.
    Surround51,
    /// 7.1 surround, eight channels.
    Surround71,
}

/// The number of channels that a `ChannelCount` stands for.
pub open spec fn channels_of(c: ChannelCount) -> u32 {
    match c {
        ChannelCount::Mono => 1,
        ChannelCount::Stereo => 2,
        ChannelCount::Quad => 4,
        ChannelCount::Surround51 => 6,
        ChannelCount::Surround71 => 8,
    }
}

/// Whether `n` is a channel count the engine supports.
pub open spec fn is_supported_channel_count(n: u32) -> bool {
    n == 1 || n == 2 || n == 4 || n == 6 || n == 8
}

impl ChannelCount {
    /// Returns the number of channels.
    pub fn count(self) -> (r: u32)
        ensures
            r == channels_of(self),
            1 <= r <= 8,
    {
        match self {
            ChannelCount::Mono => 1,
            ChannelCount::Stereo => 2,
            ChannelCount::Quad => 4,
            ChannelCount::Surround51 => 6,
            ChannelCount::Surround71 => 8,
        }
    }

    /// Returns the number of channels as a `usize`.
    pub fn count_usize(self) -> (r: usize)
        ensures
            r == channels_of(self) as usize,
            1 <= r <= 8,
    {
        self.count() as usize
    }

    /// Returns true for layouts that carry at least a left and a right channel.
    pub fn is_stereo_compatible(self) -> (r: bool)
        ensures
            r == (channels_of(self) >= 2),
    {
        match self {
            ChannelCount::Mono => false,
            _ => true,
        }
    }

    /// Looks up the channel count for a number of channels.
    pub fn from_count(value: u32) -> (r: Result<ChannelCount, AudioEngineError>)
        ensures
            is_supported_channel_count(value) <==> r is Ok,
            r is Ok ==> channels_of(r->Ok_0) == value,
            !is_supported_channel_count(value) ==> r == Err::<ChannelCount, AudioEngineError>(
                AudioEngineError::InvalidChannelCount { value },
            ),
    {
        match value {
            1 => Ok(ChannelCount::Mono),
            2 => Ok(ChannelCount::Stereo),
            4 => Ok(ChannelCount::Quad),
            6 => Ok(ChannelCount::Surround51),
            8 => Ok(ChannelCount::Surround71),
            _ => Err(AudioEngineError::InvalidChannelCount { value }),
        }
    }
}

impl Default for ChannelCount {
    fn default() -> (r: ChannelCount)
        ensures
            r == ChannelCount::Stereo,
    {
        ChannelCount::Stereo
    }
}

/// Spatial layout of the audio channels.
#[derive(Debug, Clone, Copy, PartialEq, Eq, Hash, Structural)]
pub enum ChannelLayout {
    /// One channel, no spatial position.
    Mono,
    /// Left, right.
    Stereo,
    /// Front left, front right, rear left, rear right.
    Quad,
    /// FL, FR, C, LFE, RL, RR.
    Surround51,
    /// FL, FR, C, LFE, RL, RR, SL, SR.
    Surround71,
}

/// The channel count of each layout.
pub open spec fn layout_count(l: ChannelLayout) -> ChannelCount {
    match l {
        ChannelLayout::Mono => ChannelCount::Mono,
        ChannelLayout::Stereo => ChannelCount::Stereo,
        ChannelLayout::Quad => ChannelCount::Quad,
        ChannelLayout::Surround51 => ChannelCount::Surround51,
        ChannelLayout::Surround71 => ChannelCount::Surround71,
    }
}

impl ChannelLayout {
    /// Returns the corresponding channel count.
    pub fn channel_count(self) -> (r: ChannelCount)
        ensures
            r == layout_count(self),
    {
        match self {
            ChannelLayout::Mono => ChannelCount::Mono,
            ChannelLayout::Stereo => ChannelCount::Stereo,
            ChannelLayout::Quad => ChannelCount::Quad,
            ChannelLayout::Surround51 => ChannelCount::Surround51,
            ChannelLayout::Surround71 => ChannelCount::Surround71,
        }
    }

    /// Returns the layout that has the given channel count.
    pub fn from_count(count: ChannelCount) -> (r: ChannelLayout)
        ensures
            layout_count(r) == count,
    {
        match count {
            ChannelCount::Mono => ChannelLayout::Mono,
            ChannelCount::Stereo => ChannelLayout::Stereo,
            ChannelCount::Quad => ChannelLayout::Quad,
            ChannelCount::Surround51 => ChannelLayout::Surround51,
            ChannelCount::Surround71 => ChannelLayout::Surround71,
        }
    }

    /// Returns the channel labels of the layout, one per channel.
    pub fn channel_labels(self) -> (r: &'static [&'static str])
        ensures
            r@.len() == channels_of(layout_count(self)),
    {
        match self {
            ChannelLayout::Mono => {
                let a: &'static [&'static str; 1] = &["M"];
                vstd::array::array_as_slice(a)
            },
            ChannelLayout::Stereo => {
                let a: &'static [&'static str; 2] = &["L", "R"];
                vstd::array::array_as_slice(a)
            },
            ChannelLayout::Quad => {
                let a: &'static [&'static str; 4] = &["FL", "FR", "RL", "RR"];
                vstd::array::array_as_slice(a)
            },
            ChannelLayout::Surround51 => {
                let a: &'static [&'static str; 6] = &["FL", "FR", "C", "LFE", "RL", "RR"];
                vstd::array::array_as_slice(a)
            },
            ChannelLayout::Surround71 => {
                let a: &'static [&'static str; 8] = &["FL", "FR", "C", "LFE", "RL", "RR", "SL", "SR"];
                vstd::array::array_as_slice(a)
            },
        }
    }
}

impl Default for ChannelLayout {
    fn default() -> (r: ChannelLayout)
        ensures
            r == ChannelLayout::Stereo,
    {
        ChannelLayout::Stereo
    }
}

/// Smallest allowed buffer size.
pub const BUFFER_SIZE_MIN: u32 = 64;

/// Largest allowed buffer size.
pub const BUFFER_SIZE_MAX: u32 = 8192;

/// Whether `v` is a power of two in `BUFFER_SIZE_MIN..=BUFFER_SIZE_MAX`.
pub open spec fn is_valid_buffer_size(v: u32) -> bool {
    v == 64 || v == 128 || v == 256 || v == 512 || v == 1024 || v == 2048 || v == 4096 || v == 8192
}

/// Audio buffer size in samples per channel: a power of two in 64..=8192.
#[derive(Debug, Clone, PartialEq, Eq, Hash)]
pub struct BufferSize {
    value: u32,
}

impl BufferSize {
    /// The size in samples.
    pub closed spec fn spec_value(&self) -> u32 {
        self.value
    }

    /// The size is always one of the allowed powers of two.
    pub open spec fn wf(&self) -> bool {
        is_valid_buffer_size(self.spec_value())
    }

    /// Creates a buffer size if the value is a power of two in range.
    pub fn new(value: u32) -> (r: Result<BufferSize, AudioEngineError>)
        ensures
            is_valid_buffer_size(value) <==> r is Ok,
            r is Ok ==> r->Ok_0.spec_value() == value && r->Ok_0.wf(),
            !is_valid_buffer_size(value) ==> r == Err::<BufferSize, AudioEngineError>(
                AudioEngineError::InvalidBufferSize { value },
            ),
    {
        if value < BUFFER_SIZE_MIN || value > BUFFER_SIZE_MAX {
            return Err(AudioEngineError::InvalidBufferSize { value });
        }
        let mut p: u32 = BUFFER_SIZE_MIN;
        while p < value
            invariant
                is_valid_buffer_size(p),
                64 <= value <= 8192,
                forall|q: u32| is_valid_buffer_size(q) && q < p ==> q != value,
            decreases 8192 - p,
        {
            p = p * 2;
        }
        if p == value {
            Ok(BufferSize { value })
        } else {
            Err(AudioEngineError::InvalidBufferSize { value })
        }
    }

    /// Returns the buffer size as a `u32`.
    pub fn as_u32(self) -> (r: u32)
        ensures
            r == self.spec_value(),
    {
        self.value
    }

    /// Returns the buffer size as a `usize`.
    pub fn as_usize(self) -> (r: usize)
        ensures
            r == self.spec_value() as usize,
    {
        self.value as usize
    }

    /// Returns the next larger buffer size, if there is one.
    pub fn next_larger(self) -> (r: Option<BufferSize>)
        requires
            self.wf(),
        ensures
            self.spec_value() < BUFFER_SIZE_MAX <==> r is Some,
            r is Some ==> r->0.spec_value() == 2 * self.spec_value() && r->0.wf(),
    {
        let next = self.value * 2;
        if next <= BUFFER_SIZE_MAX {
            match BufferSize::new(next) {
                Ok(b) => Some(b),
                Err(_) => None,
            }
        } else {
            None
        }
    }

    /// Returns the next smaller buffer size, if there is one.
    pub fn next_smaller(self) -> (r: Option<BufferSize>)
        requires
            self.wf(),
        ensures
            self.spec_value() > BUFFER_SIZE_MIN <==> r is Some,
            r is Some ==> 2 * r->0.spec_value() == self.spec_value() && r->0.wf(),
    {
        let next = self.value / 2;
        if next >= BUFFER_SIZE_MIN {
            match BufferSize::new(next) {
                Ok(b) => Some(b),
                Err(_) => None,
            }
        } else {
            None
        }
    }
}

impl Default for BufferSize {
    fn default() -> (r: BufferSize)
        ensures
            r.spec_value() == 512,
            r.wf(),
    {
        BufferSize { value: 512 }
    }
}

/// Number of audio frames (a frame is one sample per channel).
#[derive(Debug, Clone, PartialEq, Eq, Hash, Default)]
pub struct FrameCount {
    frames: u64,
}

impl FrameCount {
    /// The number of frames.
    pub closed spec fn spec_frames(&self) -> u64 {
        self.frames
    }

    /// Creates a frame count.
    pub fn new(frames: u64) -> (r: FrameCount)
        ensures
            r.spec_frames() == frames,
    {
        FrameCount { frames }
    }

    /// Returns the frame count as a `u64`.
    pub fn as_u64(self) -> (r: u64)
        ensures
            r == self.spec_frames(),
    {
        self.frames
    }

    /// Total samples over all channels, saturating at `u64::MAX`.
    pub fn total_samples(self, channels: ChannelCount) -> (r: u64)
        ensures
            r as int == if self.spec_frames() * channels_of(channels) > u64::MAX {
                u64::MAX as int
            } else {
                self.spec_frames() * channels_of(channels)
            },
    {
        match self.frames.checked_mul(channels.count() as u64) {
            Some(v) => v,
            None => u64::MAX,
        }
    }

    /// Adds frames, saturating on overflow.
    pub fn saturating_add(self, other: FrameCount) -> (r: FrameCount)
        ensures
            r.spec_frames() as int == if self.spec_frames() + other.spec_frames() > u64::MAX {
                u64::MAX as int
            } else {
                self.spec_frames() + other.spec_frames()
            },
    {
        FrameCount { frames: self.frames.saturating_add(other.frames) }
    }

    /// Subtracts frames, saturating at zero.
    pub fn saturating_sub(self, other: FrameCount) -> (r: FrameCount)
        ensures
            r.spec_frames() as int == if self.spec_frames() < other.spec_frames() {
                0
            } else {
                self.spec_frames() - other.spec_frames()
            },
    {
        FrameCount { frames: self.frames.saturating_sub(other.frames) }
    }

    /// Creates a frame count from a `usize`.
    pub fn from_usize(value: usize) -> (r: FrameCount)
        ensures
            r.spec_frames() == value as u64,
    {
        FrameCount { frames: value as u64 }
    }
}

/// Audio bit depth.
#[derive(Debug, Clone, Copy, PartialEq, Eq, Hash, Structural)]
pub enum BitDepth {
    /// 16 bit integer.
    I16,
    /// 24 bit integer, stored in 32 bits.
    I24,
    /// 32 bit integer.
    I32,
    /// 32 bit floating point.
    F32,
    /// 64 bit floating point.
    F64,
}

/// Bytes per sample of each bit depth.
pub open spec fn bytes_of(b: BitDepth) -> u32 {
    match b {
        BitDepth::I16 => 2,
        BitDepth::I24 => 3,
        BitDepth::I32 => 4,
        BitDepth::F32 => 4,
        BitDepth::F64 => 8,
    }
}

impl BitDepth {
    /// Returns the number of bits.
    pub fn bits(self) -> (r: u32)
        ensures
            r == match self {
                BitDepth::I16 => 16u32,
                BitDepth::I24 => 24u32,
                BitDepth::I32 => 32u32,
                BitDepth::F32 => 32u32,
                BitDepth::F64 => 64u32,
            },
    {
        match self {
            BitDepth::I16 => 16,
            BitDepth::I24 => 24,
            BitDepth::I32 => 32,
            BitDepth::F32 => 32,
            BitDepth::F64 => 64,
        }
    }

    /// Returns the number of bytes per sample.
    pub fn bytes_per_sample(self) -> (r: u32)
        ensures
            r == bytes_of(self),
    {
        match self {
            BitDepth::I16 => 2,
            BitDepth::I24 => 3,
            BitDepth::I32 => 4,
            BitDepth::F32 => 4,
            BitDepth::F64 => 8,
        }
    }

    /// Returns true for the floating-point formats.
    pub fn is_float(self) -> (r: bool)
        ensures
            r == (self is F32 || self is F64),
    {
        match self {
            BitDepth::F32 => true,
            BitDepth::F64 => true,
            _ => false,
        }
    }

    /// Returns true for the integer formats.
    pub fn is_integer(self) -> (r: bool)
        ensures
            r == !(self is F32 || self is F64),
    {
        !self.is_float()
    }
}

impl Default for BitDepth {
    fn default() -> (r: BitDepth)
        ensures
            r == BitDepth::F32,
    {
        BitDepth::F32
    }
}

/// A complete audio format.
#[derive(Debug, Clone, Copy, PartialEq, Eq, Hash, Structural)]
pub struct AudioFormat {
    /// Sample rate.
    pub sample_rate: SampleRate,
    /// Number of channels.
    pub channels: ChannelCount,
    /// Bit depth.
    pub bit_depth: BitDepth,
}

impl AudioFormat {
    /// 44.1 kHz, 16 bit stereo.
    pub fn cd_quality() -> (r: AudioFormat)
        ensures
            r == (AudioFormat { sample_rate: SampleRate::Hz44100, channels: ChannelCount::Stereo, bit_depth: BitDepth::I16 }),
    {
        AudioFormat { sample_rate: SampleRate::Hz44100, channels: ChannelCount::Stereo, bit_depth: BitDepth::I16 }
    }

    /// 48 kHz, 24 bit stereo.
    pub fn professional() -> (r: AudioFormat)
        ensures
            r == (AudioFormat { sample_rate: SampleRate::Hz48000, channels: ChannelCount::Stereo, bit_depth: BitDepth::I24 }),
    {
        AudioFormat { sample_rate: SampleRate::Hz48000, channels: ChannelCount::Stereo, bit_depth: BitDepth::I24 }
    }

    /// 96 kHz, 32 bit float stereo.
    pub fn high_res() -> (r: AudioFormat)
        ensures
            r == (AudioFormat { sample_rate: SampleRate::Hz96000, channels: ChannelCount::Stereo, bit_depth: BitDepth::F32 }),
    {
        AudioFormat { sample_rate: SampleRate::Hz96000, channels: ChannelCount::Stereo, bit_depth: BitDepth::F32 }
    }

    /// Creates an audio format.
    pub fn new(sample_rate: SampleRate, channels: ChannelCount, bit_depth: BitDepth) -> (r: AudioFormat)
        ensures
            r.sample_rate == sample_rate,
            r.channels == channels,
            r.bit_depth == bit_depth,
    {
        AudioFormat { sample_rate, channels, bit_depth }
    }

    /// Bytes per second: rate times channels times bytes per sample.
    pub fn byte_rate(self) -> (r: u32)
        ensures
            r as int == rate_hz(self.sample_rate) as int * channels_of(self.channels) as int
                * bytes_of(self.bit_depth) as int,
    {
        let hz = self.sample_rate.as_hz();
        let ch = self.channels.count();
        let bytes = self.bit_depth.bytes_per_sample();
        proof {
            assert(hz as int * ch as int <= 192000 * 8) by (nonlinear_arith)
                requires hz <= 192000, ch <= 8;
            assert(hz as int * ch as int * bytes as int <= 192000 * 8 * 8) by (nonlinear_arith)
                requires hz as int * ch as int <= 192000 * 8, bytes <= 8;
        }
        hz * ch * bytes
    }

    /// Bytes per frame: channels times bytes per sample.
    pub fn frame_size(self) -> (r: u32)
        ensures
            r as int == channels_of(self.channels) as int * bytes_of(self.bit_depth) as int,
    {
        self.channels.count() * self.bit_depth.bytes_per_sample()
    }

    /// Two formats can be mixed when rate and channel count agree.
    pub fn is_compatible_with(self, other: AudioFormat) -> (r: bool)
        ensures
            r == (self.sample_rate == other.sample_rate && self.channels == other.channels),
    {
        self.sample_rate == other.sample_rate && self.channels == other.channels
    }
}

impl Default for AudioFormat {
    fn default() -> (r: AudioFormat)
        ensures
            r == (AudioFormat { sample_rate: SampleRate::Hz48000, channels: ChannelCount::Stereo, bit_depth: BitDepth::F32 }),
    {
        AudioFormat { sample_rate: SampleRate::Hz48000, channels: ChannelCount::Stereo, bit_depth: BitDepth::F32 }
    }
}

} // verus!
