//! Error kinds of the engine.
use vstd::prelude::*;
use vstd::string::StringExecFns;

use crate::types::{ChannelCount, SampleRate};

verus! {

/// Error type for all audio engine operations.
#[derive(Debug, Clone, PartialEq, Eq)]
#[non_exhaustive]
pub enum AudioEngineError {
    /// A sample rate outside the supported set.
    InvalidSampleRate { value: u32 },
    /// A channel count outside the supported set.
    InvalidChannelCount { value: u32 },
    /// A buffer size that is not a power of two in 64..=8192.
    InvalidBufferSize { value: u32 },
    /// A numeric conversion failed.
    NumericConversion { message: String },
    /// A write larger than a buffer's capacity.
    BufferOverflow { attempted: usize, capacity: usize },
    /// A read of more data than is available.
    BufferUnderRun { requested: usize, available: usize },
    /// A ring buffer (or bounded channel) had no free slot.
    RingBufferFull { count: usize },
    /// A ring buffer had no element to read.
    RingBufferEmpty { count: usize },
    /// Two formats that were expected to agree do not.
    FormatMismatch { expected: String, actual: String },
    /// Two components run at different sample rates.
    SampleRateMismatch { from_rate: SampleRate, to_rate: SampleRate },
    /// Two components have different channel counts.
    ChannelCountMismatch { source: ChannelCount, target: ChannelCount },
    /// No audio device of the given name.
    DeviceNotFound { device_name: String },
    /// An audio device could not be used.
    DeviceAccess { message: String },
    /// No audio file at the given path.
    FileNotFound { path: String },
    /// An audio format the engine does not handle.
    UnsupportedFormat { format: String },
    /// A stream URL that could not be parsed.
    InvalidStreamUrl { url: String, reason: String },
    /// A network connection failed.
    NetworkConnection { message: String },
    /// The receiving end of a channel is gone.
    ChannelSendFailed,
    /// The sending end of a channel is gone.
    ChannelRecvFailed,
    /// A configuration value is invalid.
    Configuration { message: String },
    /// An operation is invalid in the engine's current state.
    PipelineState { message: String },
}

impl AudioEngineError {
    /// Creates a numeric conversion error with the given message.
    pub fn numeric_conversion(message: &str) -> (r: AudioEngineError)
        ensures
            r is NumericConversion,
            r->NumericConversion_message@ == message@,
    {
        AudioEngineError::NumericConversion { message: String::from_str(message) }
    }

    /// Creates a configuration error with the given message.
    pub fn configuration(message: &str) -> (r: AudioEngineError)
        ensures
            r is Configuration,
            r->Configuration_message@ == message@,
    {
        AudioEngineError::Configuration { message: String::from_str(message) }
    }

    /// Creates a pipeline state error with the given message.
    pub fn pipeline_state(message: &str) -> (r: AudioEngineError)
        ensures
            r is PipelineState,
            r->PipelineState_message@ == message@,
    {
        AudioEngineError::PipelineState { message: String::from_str(message) }
    }

    /// Whether this error is an expected steady-state signal on the hot path.
    pub open spec fn spec_is_recoverable(&self) -> bool {
        ||| self is BufferUnderRun
        ||| self is RingBufferEmpty
        ||| self is RingBufferFull
    }

    /// Whether this error means the engine cannot continue.
    pub open spec fn spec_is_fatal(&self) -> bool {
        ||| self is DeviceNotFound
        ||| self is DeviceAccess
        ||| self is ChannelSendFailed
        ||| self is ChannelRecvFailed
    }

    /// Returns true if this error is recoverable.
    pub fn is_recoverable(&self) -> (r: bool)
        ensures
            r == self.spec_is_recoverable(),
    {
        match self {
            AudioEngineError::BufferUnderRun { .. } => true,
            AudioEngineError::RingBufferEmpty { .. } => true,
            AudioEngineError::RingBufferFull { .. } => true,
            _ => false,
        }
    }

    /// Returns true if this error indicates a fatal condition.
    pub fn is_fatal(&self) -> (r: bool)
        ensures
            r == self.spec_is_fatal(),
    {
        match self {
            AudioEngineError::DeviceNotFound { .. } => true,
            AudioEngineError::DeviceAccess { .. } => true,
            AudioEngineError::ChannelSendFailed => true,
            AudioEngineError::ChannelRecvFailed => true,
            _ => false,
        }
    }
}

} // verus!
