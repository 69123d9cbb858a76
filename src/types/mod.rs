//! Value types of the engine: sample rates, formats, devices, time.
pub mod audio;
pub mod device;
pub mod network;
pub mod sample;
pub mod time;

pub use audio::{AudioFormat, BitDepth, BufferSize, ChannelCount, ChannelLayout, FrameCount};
pub use device::{DeviceId, DeviceInfo, DeviceType};
pub use network::{NetworkProtocol, StreamBitrate, StreamUrl};
pub use sample::SampleRate;
pub use time::{Timestamp, TransportPosition};
