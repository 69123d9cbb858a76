//! Buffers for real-time audio processing: a pre-allocated buffer, an
//! interleaved multi-channel buffer built on it, and a lock-free ring buffer.
pub mod audio;
pub mod realtime;
pub mod ring;

pub use audio::AudioBuffer;
pub use realtime::RealtimeBuffer;
pub use ring::{RingBuffer, RingBufferReader, RingBufferWriter};
