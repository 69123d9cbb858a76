//! Descriptors of where audio comes from and where it goes.
pub mod input;
pub mod output;

pub use input::{AudioFileFormat, DeviceInputConfig, NetworkInput};
pub use output::{DeviceOutputConfig, FileOutput, Mp3Settings, NetworkOutput, OutputFileFormat, OutputTarget};
