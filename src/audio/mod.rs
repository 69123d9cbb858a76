//! The boundary to the audio device layer: stream configuration and the
//! choice among the configurations a device offers.
pub mod config;

pub use config::{SampleFormat, StreamConfig, SupportedConfig};
