//! Output target descriptors.
use vstd::prelude::*;
use vstd::string::StringExecFns;

use crate::types::{AudioFormat, DeviceId, DeviceType, StreamBitrate, StreamUrl};

verus! {

/// Where processed audio goes.
#[derive(Debug, Clone)]
#[non_exhaustive]
pub enum OutputTarget {
    /// Live playback on a device.
    Device(DeviceOutputConfig),
    /// Recording to a file.
    File(FileOutput),
    /// Streaming over the network.
    Network(NetworkOutput),
    /// Discards the audio.
    Null,
}

/// `"input"` or `"output"`.
pub open spec fn device_type_text(t: DeviceType) -> Seq<char> {
    match t {
        DeviceType::Input => "input"@,
        DeviceType::Output => "output"@,
    }
}

/// Describes a device as `type:id`.
pub fn device_label(id: &DeviceId) -> (r: String)
    ensures
        r@ == device_type_text(id.spec_device_type()) + ":"@ + id.spec_id(),
{
    let kind = match id.device_type() {
        DeviceType::Input => String::from_str("input"),
        DeviceType::Output => String::from_str("output"),
    };
    kind.concat(":").concat(id.as_str())
}

impl OutputTarget {
    /// A device output with default settings.
    pub fn device(device_id: DeviceId) -> (r: OutputTarget)
        ensures
            r == OutputTarget::Device(DeviceOutputConfig::spec_new(device_id)),
    {
        OutputTarget::Device(DeviceOutputConfig::new(device_id))
    }

    /// An output on the default playback device.
    pub fn default_device() -> (r: OutputTarget)
        ensures
            r is Device,
            r->Device_0.device_id.spec_id() == "default"@,
            r->Device_0.device_id.spec_device_type() == DeviceType::Output,
            r->Device_0.format is None,
            !r->Device_0.exclusive,
    {
        OutputTarget::Device(DeviceOutputConfig::new(DeviceId::default_output()))
    }

    /// A file output.
    pub fn file(path: &str, format: OutputFileFormat) -> (r: OutputTarget)
        ensures
            r is File,
            r->File_0.path@ == path@,
            r->File_0.format == format,
            r->File_0.audio_format is None,
    {
        OutputTarget::File(FileOutput::new(path, format))
    }

    /// An output that discards the audio.
    pub fn null() -> (r: OutputTarget)
        ensures
            r is Null,
    {
        OutputTarget::Null
    }

    /// A one-line description of the target.
    pub fn description(&self) -> (r: String)
        ensures
            self is Device ==> r@ == "Device: "@ + device_type_text(
                self->Device_0.device_id.spec_device_type(),
            ) + ":"@ + self->Device_0.device_id.spec_id(),
            self is File ==> r@ == "File: "@ + self->File_0.path@,
            self is Network ==> r@ == "Network: "@ + self->Network_0.url.spec_raw(),
            self is Null ==> r@ == "Null"@,
    {
        match self {
            OutputTarget::Device(config) => {
                let label = device_label(&config.device_id);
                String::from_str("Device: ").concat(label.as_str())
            },
            OutputTarget::File(file) => String::from_str("File: ").concat(file.path.as_str()),
            OutputTarget::Network(net) => String::from_str("Network: ").concat(net.url.as_str()),
            OutputTarget::Null => String::from_str("Null"),
        }
    }
}

/// Settings for playback on a device.
#[derive(Debug, Clone)]
pub struct DeviceOutputConfig {
    /// Device identifier.
    pub device_id: DeviceId,
    /// Desired audio format, if any.
    pub format: Option<AudioFormat>,
    /// Exclusive mode, where available.
    pub exclusive: bool,
}

impl DeviceOutputConfig {
    /// The configuration `new` builds.
    pub open spec fn spec_new(device_id: DeviceId) -> DeviceOutputConfig {
        DeviceOutputConfig { device_id, format: None, exclusive: false }
    }

    /// Creates a configuration with no format and shared mode.
    pub fn new(device_id: DeviceId) -> (r: DeviceOutputConfig)
        ensures
            r == DeviceOutputConfig::spec_new(device_id),
    {
        DeviceOutputConfig { device_id, format: None, exclusive: false }
    }

    /// Sets the desired format.
    pub fn with_format(self, format: AudioFormat) -> (r: DeviceOutputConfig)
        ensures
            r == (DeviceOutputConfig { format: Some(format), ..self }),
    {
        DeviceOutputConfig { format: Some(format), ..self }
    }

    /// Enables exclusive mode.
    pub fn exclusive(self) -> (r: DeviceOutputConfig)
        ensures
            r == (DeviceOutputConfig { exclusive: true, ..self }),
    {
        DeviceOutputConfig { exclusive: true, ..self }
    }
}

impl Default for DeviceOutputConfig {
    fn default() -> (r: DeviceOutputConfig)
        ensures
            r.device_id.spec_id() == "default"@,
            r.device_id.spec_device_type() == DeviceType::Output,
            r.format is None,
            !r.exclusive,
    {
        DeviceOutputConfig::new(DeviceId::default_output())
    }
}

/// Settings for recording to a file.
#[derive(Debug, Clone)]
pub struct FileOutput {
    /// Path of the file.
    pub path: String,
    /// File format.
    pub format: OutputFileFormat,
    /// Sample rate, channels and depth, if set.
    pub audio_format: Option<AudioFormat>,
}

impl FileOutput {
    /// Creates a file output with no audio format set.
    pub fn new(path: &str, format: OutputFileFormat) -> (r: FileOutput)
        ensures
            r.path@ == path@,
            r.format == format,
            r.audio_format is None,
    {
        FileOutput { path: String::from_str(path), format, audio_format: None }
    }

    /// Sets the audio format.
    pub fn with_audio_format(self, audio_format: AudioFormat) -> (r: FileOutput)
        ensures
            r == (FileOutput { audio_format: Some(audio_format), ..self }),
    {
        FileOutput { audio_format: Some(audio_format), ..self }
    }

    /// A WAV file output.
    pub fn wav(path: &str) -> (r: FileOutput)
        ensures
            r.path@ == path@,
            r.format is Wav,
            r.audio_format is None,
    {
        FileOutput::new(path, OutputFileFormat::Wav)
    }

    /// An MP3 file output at 192 kbps, quality 2.
    pub fn mp3(path: &str) -> (r: FileOutput)
        ensures
            r.path@ == path@,
            r.format is Mp3,
            r.format->Mp3_0.bitrate.spec_bps() == 192_000,
            r.format->Mp3_0.quality == 2,
            r.audio_format is None,
    {
        FileOutput::new(path, OutputFileFormat::Mp3(Mp3Settings::default()))
    }
}

/// Output file formats.
#[derive(Debug, Clone)]
pub enum OutputFileFormat {
    /// Waveform audio file format.
    Wav,
    /// MPEG audio layer 3.
    Mp3(Mp3Settings),
}

impl OutputFileFormat {
    /// Returns the usual file extension.
    pub fn extension(&self) -> (r: &'static str)
        ensures
            self is Wav ==> r@ == "wav"@,
            self is Mp3 ==> r@ == "mp3"@,
    {
        match self {
            OutputFileFormat::Wav => "wav",
            OutputFileFormat::Mp3(_) => "mp3",
        }
    }
}

/// MP3 encoder settings.
#[derive(Debug, Clone)]
pub struct Mp3Settings {
    /// Bitrate.
    pub bitrate: StreamBitrate,
    /// Quality, 0 to 9, lower is better.
    pub quality: u8,
}

impl Default for Mp3Settings {
    fn default() -> (r: Mp3Settings)
        ensures
            r.bitrate.spec_bps() == 192_000,
            r.quality == 2,
    {
        Mp3Settings { bitrate: StreamBitrate::from_bps(192_000), quality: 2 }
    }
}

/// Settings for streaming over the network.
#[derive(Debug, Clone)]
pub struct NetworkOutput {
    /// Stream URL.
    pub url: StreamUrl,
    /// Audio bitrate.
    pub audio_bitrate: StreamBitrate,
    /// Buffer size in milliseconds.
    pub buffer_ms: u32,
}

impl NetworkOutput {
    /// Creates a network output at 192 kbps with a one-second buffer.
    pub fn new(url: StreamUrl) -> (r: NetworkOutput)
        ensures
            r.url == url,
            r.audio_bitrate.spec_bps() == 192_000,
            r.buffer_ms == 1000,
    {
        NetworkOutput { url, audio_bitrate: StreamBitrate::from_bps(192_000), buffer_ms: 1000 }
    }

    /// Sets the audio bitrate.
    pub fn with_audio_bitrate(self, bitrate: StreamBitrate) -> (r: NetworkOutput)
        ensures
            r == (NetworkOutput { audio_bitrate: bitrate, ..self }),
    {
        NetworkOutput { audio_bitrate: bitrate, ..self }
    }

    /// Sets the buffer size.
    pub fn with_buffer_ms(self, ms: u32) -> (r: NetworkOutput)
        ensures
            r == (NetworkOutput { buffer_ms: ms, ..self }),
    {
        NetworkOutput { buffer_ms: ms, ..self }
    }
}

} // verus!
