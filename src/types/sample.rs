//! Sample rates supported by the engine.
use vstd::prelude::*;

use crate::error::AudioEngineError;

verus! {

/// A sample rate in Hz, restricted to the rates the engine supports.
#[derive(Debug, Clone, Copy, PartialEq, Eq, Hash, Structural)]
pub enum SampleRate {
    /// 44.1 kHz, CD quality.
    Hz44100,
    /// 48 kHz, the professional audio/video standard.
    Hz48000,
    /// 96 kHz, high resolution audio.
    Hz96000,
    /// 192 kHz, ultra high resolution audio.
    Hz192000,
}

/// The rate in Hz that a `SampleRate` stands for.
pub open spec fn rate_hz(r: SampleRate) -> u32 {
    match r {
        SampleRate::Hz44100 => 44100,
        SampleRate::Hz48000 => 48000,
        SampleRate::Hz96000 => 96000,
        SampleRate::Hz192000 => 192000,
    }
}

/// Whether `hz` is one of the supported rates.
pub open spec fn is_supported_rate(hz: u32) -> bool {
    hz == 44100 || hz == 48000 || hz == 96000 || hz == 192000
}

/// Whole samples in `millis` milliseconds at `hz`, saturated to `u32::MAX`.
pub open spec fn samples_in_millis(hz: u32, millis: u32) -> int {
    let exact = (hz as int) * (millis as int) / 1000;
    if exact > u32::MAX as int { u32::MAX as int } else { exact }
}

impl SampleRate {
    /// All supported sample rates, in increasing order.
    pub fn all() -> (r: [SampleRate; 4])
        ensures
            r@ == seq![SampleRate::Hz44100, SampleRate::Hz48000, SampleRate::Hz96000, SampleRate::Hz192000],
    {
        [SampleRate::Hz44100, SampleRate::Hz48000, SampleRate::Hz96000, SampleRate::Hz192000]
    }

    /// Returns the sample rate in Hz.
    pub fn as_hz(self) -> (r: u32)
        ensures
            r == rate_hz(self),
    {
        match self {
            SampleRate::Hz44100 => 44100,
            SampleRate::Hz48000 => 48000,
            SampleRate::Hz96000 => 96000,
            SampleRate::Hz192000 => 192000,
        }
    }

    /// Looks up the sample rate for a value in Hz.
    pub fn from_hz(value: u32) -> (r: Result<SampleRate, AudioEngineError>)
        ensures
            is_supported_rate(value) <==> r is Ok,
            r is Ok ==> rate_hz(r->Ok_0) == value,
            !is_supported_rate(value) ==> r == Err::<SampleRate, AudioEngineError>(
                AudioEngineError::InvalidSampleRate { value },
            ),
    {
        match value {
            44100 => Ok(SampleRate::Hz44100),
            48000 => Ok(SampleRate::Hz48000),
            96000 => Ok(SampleRate::Hz96000),
            192000 => Ok(SampleRate::Hz192000),
            _ => Err(AudioEngineError::InvalidSampleRate { value }),
        }
    }

    /// Length of one sample period in whole nanoseconds.
    pub fn period_nanos(self) -> (r: u64)
        ensures
            r as int == 1_000_000_000int / (rate_hz(self) as int),
    {
        1_000_000_000u64 / (self.as_hz() as u64)
    }

    /// Number of whole samples that `millis` milliseconds span at this rate,
    /// saturated to `u32::MAX`.
    pub fn samples_for_milliseconds(self, millis: u32) -> (r: u32)
        ensures
            r as int == samples_in_millis(rate_hz(self), millis),
    {
        let hz = self.as_hz() as u64;
        proof {
            assert(hz * (millis as u64) <= u32::MAX as u64 * u32::MAX as u64) by (nonlinear_arith)
                requires hz <= u32::MAX as u64, millis <= u32::MAX;
        }
        let samples = hz * (millis as u64) / 1000;
        if samples > u32::MAX as u64 {
            u32::MAX
        } else {
            samples as u32
        }
    }
}

impl Default for SampleRate {
    fn default() -> (r: SampleRate)
        ensures
            r == SampleRate::Hz48000,
    {
        SampleRate::Hz48000
    }
}

} // verus!
