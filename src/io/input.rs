//! Input source descriptors.
use vstd::prelude::*;
use vstd::string::StringExecFns;

use crate::text::{lower_of, lowercase};
use crate::types::{AudioFormat, DeviceId, DeviceType, NetworkProtocol, StreamUrl};

verus! {

/// Settings for capture from a device.
#[derive(Debug, Clone)]
pub struct DeviceInputConfig {
    /// Device identifier.
    pub device_id: DeviceId,
    /// Desired audio format, if any.
    pub format: Option<AudioFormat>,
}

impl DeviceInputConfig {
    /// Creates a configuration with no format.
    pub fn new(device_id: DeviceId) -> (r: DeviceInputConfig)
        ensures
            r.device_id == device_id,
            r.format is None,
    {
        DeviceInputConfig { device_id, format: None }
    }

    /// Sets the desired format.
    pub fn with_format(self, format: AudioFormat) -> (r: DeviceInputConfig)
        ensures
            r == (DeviceInputConfig { format: Some(format), ..self }),
    {
        DeviceInputConfig { format: Some(format), ..self }
    }
}

impl Default for DeviceInputConfig {
    fn default() -> (r: DeviceInputConfig)
        ensures
            r.device_id.spec_id() == "default"@,
            r.device_id.spec_device_type() == DeviceType::Input,
            r.format is None,
    {
        DeviceInputConfig::new(DeviceId::default_input())
    }
}

/// Audio file formats that can be read.
#[derive(Debug, Clone, Copy, PartialEq, Eq, Hash, Structural)]
pub enum AudioFileFormat {
    /// Waveform audio file format.
    Wav,
    /// MPEG audio layer 3.
    Mp3,
    /// Free lossless audio codec.
    Flac,
    /// Ogg Vorbis.
    Ogg,
}

/// The format a lower-case file extension names.
pub open spec fn format_of_extension(ext: Seq<char>) -> Option<AudioFileFormat> {
    if ext == "wav"@ || ext == "wave"@ {
        Some(AudioFileFormat::Wav)
    } else if ext == "mp3"@ {
        Some(AudioFileFormat::Mp3)
    } else if ext == "flac"@ {
        Some(AudioFileFormat::Flac)
    } else if ext == "ogg"@ || ext == "oga"@ {
        Some(AudioFileFormat::Ogg)
    } else {
        None
    }
}

impl AudioFileFormat {
    /// The format a lower-case extension names.
    pub fn from_lowercase_extension(ext: &str) -> (r: Option<AudioFileFormat>)
        ensures
            r == format_of_extension(ext@),
    {
        let e = String::from_str(ext);
        if e == String::from_str("wav")
            || e == String::from_str("wave") {
            Some(AudioFileFormat::Wav)
        } else if e == String::from_str("mp3") {
            Some(AudioFileFormat::Mp3)
        } else if e == String::from_str("flac") {
            Some(AudioFileFormat::Flac)
        } else if e == String::from_str("ogg")
            || e == String::from_str("oga") {
            Some(AudioFileFormat::Ogg)
        } else {
            None
        }
    }

    /// The format a file extension names, ignoring case.
    pub fn from_extension(ext: &str) -> (r: Option<AudioFileFormat>)
        ensures
            r == format_of_extension(lower_of(ext@)),
    {
        let lower = lowercase(ext);
        AudioFileFormat::from_lowercase_extension(lower.as_str())
    }

    /// Returns the MIME type.
    pub fn mime_type(self) -> (r: &'static str)
        ensures
            self is Wav ==> r@ == "audio/wav"@,
            self is Mp3 ==> r@ == "audio/mpeg"@,
            self is Flac ==> r@ == "audio/flac"@,
            self is Ogg ==> r@ == "audio/ogg"@,
    {
        match self {
            AudioFileFormat::Wav => "audio/wav",
            AudioFileFormat::Mp3 => "audio/mpeg",
            AudioFileFormat::Flac => "audio/flac",
            AudioFileFormat::Ogg => "audio/ogg",
        }
    }

    /// Returns the usual file extension.
    pub fn extension(self) -> (r: &'static str)
        ensures
            self is Wav ==> r@ == "wav"@,
            self is Mp3 ==> r@ == "mp3"@,
            self is Flac ==> r@ == "flac"@,
            self is Ogg ==> r@ == "ogg"@,
    {
        match self {
            AudioFileFormat::Wav => "wav",
            AudioFileFormat::Mp3 => "mp3",
            AudioFileFormat::Flac => "flac",
            AudioFileFormat::Ogg => "ogg",
        }
    }
}

/// Settings for a network stream input.
#[derive(Debug, Clone)]
pub struct NetworkInput {
    /// Stream URL.
    pub url: StreamUrl,
    /// Buffer size in milliseconds.
    pub buffer_ms: u32,
    /// Reconnect on failure.
    pub auto_reconnect: bool,
}

impl NetworkInput {
    /// Creates a network input with a one-second buffer that reconnects.
    pub fn new(url: StreamUrl) -> (r: NetworkInput)
        ensures
            r.url == url,
            r.buffer_ms == 1000,
            r.auto_reconnect,
    {
        NetworkInput { url, buffer_ms: 1000, auto_reconnect: true }
    }

    /// Sets the buffer size.
    pub fn with_buffer_ms(self, ms: u32) -> (r: NetworkInput)
        ensures
            r == (NetworkInput { buffer_ms: ms, ..self }),
    {
        NetworkInput { buffer_ms: ms, ..self }
    }

    /// Turns reconnection off.
    pub fn without_reconnect(self) -> (r: NetworkInput)
        ensures
            r == (NetworkInput { auto_reconnect: false, ..self }),
    {
        NetworkInput { auto_reconnect: false, ..self }
    }

    /// Returns the stream's protocol.
    pub fn protocol(&self) -> (r: NetworkProtocol)
        ensures
            r == self.url.parts().0,
    {
        self.url.protocol()
    }
}

} // verus!
