//! Audio device descriptions.
use vstd::prelude::*;
use vstd::string::StringExecFns;

use crate::types::sample::SampleRate;

verus! {

/// Direction of an audio device.
#[derive(Debug, Clone, Copy, PartialEq, Eq, Hash, Structural)]
pub enum DeviceType {
    /// Captures audio (microphone, line in).
    Input,
    /// Plays audio (speakers, headphones).
    Output,
}

/// Identifies one device: a system-specific name and a direction.
#[derive(Debug, Clone, PartialEq, Eq, Hash)]
pub struct DeviceId {
    id: String,
    device_type: DeviceType,
}

impl DeviceId {
    /// The system-specific name.
    pub closed spec fn spec_id(&self) -> Seq<char> {
        self.id@
    }

    /// The direction.
    pub closed spec fn spec_device_type(&self) -> DeviceType {
        self.device_type
    }

    /// Creates a device identifier.
    pub fn new(id: &str, device_type: DeviceType) -> (r: DeviceId)
        ensures
            r.spec_id() == id@,
            r.spec_device_type() == device_type,
    {
        DeviceId { id: String::from_str(id), device_type }
    }

    /// Returns the system-specific name.
    pub fn as_str(&self) -> (r: &str)
        ensures
            r@ == self.spec_id(),
    {
        self.id.as_str()
    }

    /// Returns the direction.
    pub fn device_type(&self) -> (r: DeviceType)
        ensures
            r == self.spec_device_type(),
    {
        self.device_type
    }

    /// Returns true for a capture device.
    pub fn is_input(&self) -> (r: bool)
        ensures
            r == (self.spec_device_type() == DeviceType::Input),
    {
        match self.device_type {
            DeviceType::Input => true,
            DeviceType::Output => false,
        }
    }

    /// Returns true for a playback device.
    pub fn is_output(&self) -> (r: bool)
        ensures
            r == (self.spec_device_type() == DeviceType::Output),
    {
        match self.device_type {
            DeviceType::Input => false,
            DeviceType::Output => true,
        }
    }

    /// The system's default capture device.
    pub fn default_input() -> (r: DeviceId)
        ensures
            r.spec_id() == "default"@,
            r.spec_device_type() == DeviceType::Input,
    {
        DeviceId::new("default", DeviceType::Input)
    }

    /// The system's default playback device.
    pub fn default_output() -> (r: DeviceId)
        ensures
            r.spec_id() == "default"@,
            r.spec_device_type() == DeviceType::Output,
    {
        DeviceId::new("default", DeviceType::Output)
    }
}

/// What is known of one audio device.
#[derive(Debug, Clone)]
pub struct DeviceInfo {
    /// Device identifier.
    pub id: DeviceId,
    /// Human-readable name.
    pub name: String,
    /// Largest channel count the device supports.
    pub max_channels: u32,
    /// Sample rates the device supports.
    pub supported_sample_rates: Vec<SampleRate>,
    /// Whether this is the system default device.
    pub is_default: bool,
}

impl DeviceInfo {
    /// Creates device information: two channels, 48 kHz, not the default.
    pub fn new(id: DeviceId, name: &str) -> (r: DeviceInfo)
        ensures
            r.id == id,
            r.name@ == name@,
            r.max_channels == 2,
            r.supported_sample_rates@ == seq![SampleRate::Hz48000],
            !r.is_default,
    {
        let mut rates: Vec<SampleRate> = Vec::new();
        rates.push(SampleRate::Hz48000);
        DeviceInfo {
            id,
            name: String::from_str(name),
            max_channels: 2,
            supported_sample_rates: rates,
            is_default: false,
        }
    }

    /// Sets the largest channel count.
    pub fn with_max_channels(self, max_channels: u32) -> (r: DeviceInfo)
        ensures
            r == (DeviceInfo { max_channels, ..self }),
    {
        DeviceInfo { max_channels, ..self }
    }

    /// Sets the supported sample rates.
    pub fn with_sample_rates(self, rates: Vec<SampleRate>) -> (r: DeviceInfo)
        ensures
            r == (DeviceInfo { supported_sample_rates: rates, ..self }),
    {
        DeviceInfo { supported_sample_rates: rates, ..self }
    }

    /// Marks this as the default device.
    pub fn as_default(self) -> (r: DeviceInfo)
        ensures
            r == (DeviceInfo { is_default: true, ..self }),
    {
        DeviceInfo { is_default: true, ..self }
    }
}

} // verus!
