//! Real-time audio processing engine: buffers, channels and the value types
//! that travel between the audio callback and the rest of an application.
pub mod audio;
pub mod buffer;
pub mod channel;
pub mod dsp;
pub mod error;
pub mod io;
pub mod markers;
pub mod text;
pub mod types;
