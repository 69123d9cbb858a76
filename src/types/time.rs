//! Positions on the audio timeline.
use core::time::Duration;
use vstd::prelude::*;

use crate::types::sample::{rate_hz, SampleRate};

verus! {

/// Relies on `Duration::as_secs`: the whole seconds.
#[verifier::external_body]
pub(crate) fn duration_secs(d: &Duration) -> u64 {
    d.as_secs()
}

/// Relies on `Duration::subsec_nanos`: the fractional part in nanoseconds,
/// always below one billion.
#[verifier::external_body]
pub(crate) fn duration_subsec_nanos(d: &Duration) -> (r: u32)
    ensures
        r < 1_000_000_000,
{
    d.subsec_nanos()
}

/// Relies on `Duration::new`, which panics only when carrying whole seconds
/// out of `nanos` overflows; `nanos` below one billion carries nothing.
#[verifier::external_body]
fn duration_new(secs: u64, nanos: u32) -> Duration
    requires
        nanos < 1_000_000_000,
{
    Duration::new(secs, nanos)
}

/// Whole samples in `secs` seconds plus `nanos` nanoseconds at `hz`.
pub open spec fn samples_in(secs: u64, nanos: u32, hz: u32) -> int {
    ((secs as int) * 1_000_000_000 + nanos as int) * (hz as int) / 1_000_000_000
}

/// `v` saturated to the range of `u64`.
pub open spec fn clamp_u64(v: int) -> int {
    if v > u64::MAX as int { u64::MAX as int } else { v }
}

/// A point on the audio timeline, counted in samples.
#[derive(Debug, Clone, Copy, PartialEq, Eq, PartialOrd, Ord, Hash, Default)]
pub struct Timestamp {
    samples: u64,
}

impl Timestamp {
    /// The sample count.
    pub closed spec fn spec_samples(&self) -> u64 {
        self.samples
    }

    /// The start of the timeline.
    pub fn zero() -> (r: Timestamp)
        ensures
            r.spec_samples() == 0,
    {
        Timestamp { samples: 0 }
    }

    /// Creates a timestamp from a sample count.
    pub fn from_samples(samples: u64) -> (r: Timestamp)
        ensures
            r.spec_samples() == samples,
    {
        Timestamp { samples }
    }

    /// The timestamp `secs` seconds and `nanos` nanoseconds in, at the given
    /// rate: whole samples, saturated to `u64::MAX`.
    pub fn from_secs_nanos(secs: u64, nanos: u32, sample_rate: SampleRate) -> (r: Timestamp)
        requires
            nanos < 1_000_000_000,
        ensures
            r.spec_samples() as int == clamp_u64(samples_in(secs, nanos, rate_hz(sample_rate))),
    {
        let hz = sample_rate.as_hz() as u128;
        let total_nanos: u128 = (secs as u128) * 1_000_000_000u128 + (nanos as u128);
        proof {
            assert(total_nanos * hz <= u128::MAX) by (nonlinear_arith)
                requires
                    total_nanos <= u64::MAX as u128 * 1_000_000_000u128 + 1_000_000_000u128,
                    hz <= 192000,
            ;
        }
        let samples = total_nanos * hz / 1_000_000_000u128;
        if samples > u64::MAX as u128 {
            Timestamp { samples: u64::MAX }
        } else {
            Timestamp { samples: samples as u64 }
        }
    }

    /// The timestamp that `duration` spans at the given rate: what
    /// `from_secs_nanos` gives for the duration's whole seconds and
    /// nanoseconds, which only the duration itself knows.
    pub fn from_duration(duration: Duration, sample_rate: SampleRate) -> Timestamp {
        let secs = duration_secs(&duration);
        let nanos = duration_subsec_nanos(&duration);
        Timestamp::from_secs_nanos(secs, nanos, sample_rate)
    }

    /// Returns the sample count.
    pub fn as_samples(self) -> (r: u64)
        ensures
            r == self.spec_samples(),
    {
        self.samples
    }

    /// Whole seconds and remaining nanoseconds (rounded down) that this
    /// timestamp spans at the given rate.
    pub fn to_secs_nanos(self, sample_rate: SampleRate) -> (r: (u64, u32))
        ensures
            r.0 as int == self.spec_samples() as int / rate_hz(sample_rate) as int,
            r.1 as int == (self.spec_samples() as int % rate_hz(sample_rate) as int)
                * 1_000_000_000 / rate_hz(sample_rate) as int,
            r.1 < 1_000_000_000,
    {
        let hz = sample_rate.as_hz() as u64;
        let secs = self.samples / hz;
        let rem = self.samples % hz;
        proof {
            assert((rem as int) * 1_000_000_000 <= 192000 * 1_000_000_000) by (nonlinear_arith)
                requires rem < hz, hz <= 192000;
            assert((rem as int) * 1_000_000_000 / (hz as int) < 1_000_000_000) by (nonlinear_arith)
                requires rem < hz, hz > 0;
        }
        let nanos = (rem * 1_000_000_000u64) / hz;
        (secs, nanos as u32)
    }

    /// The duration this timestamp spans at the given rate, to the
    /// nanosecond below.
    pub fn to_duration(self, sample_rate: SampleRate) -> Duration {
        let (secs, nanos) = self.to_secs_nanos(sample_rate);
        duration_new(secs, nanos)
    }

    /// Moves back by `samples`, stopping at zero.
    pub fn sub_samples(self, samples: u64) -> (r: Timestamp)
        ensures
            r.spec_samples() as int == if self.spec_samples() < samples {
                0
            } else {
                self.spec_samples() - samples
            },
    {
        Timestamp { samples: self.samples.saturating_sub(samples) }
    }

    /// Distance between two timestamps in samples.
    pub fn diff(self, other: Timestamp) -> (r: u64)
        ensures
            r as int == if self.spec_samples() >= other.spec_samples() {
                self.spec_samples() - other.spec_samples()
            } else {
                other.spec_samples() - self.spec_samples()
            },
    {
        if self.samples >= other.samples {
            self.samples - other.samples
        } else {
            other.samples - self.samples
        }
    }
}

/// A position shown as hours, minutes, seconds and milliseconds.
#[derive(Debug, Clone, Copy, PartialEq, Eq, Default, Structural)]
pub struct TransportPosition {
    hours: u8,
    minutes: u8,
    seconds: u8,
    millis: u16,
}

/// Milliseconds that a position's fields add up to.
pub open spec fn position_millis(hours: u8, minutes: u8, seconds: u8, millis: u16) -> int {
    hours as int * 3_600_000 + minutes as int * 60_000 + seconds as int * 1000 + millis as int
}

/// Hours (saturated at 255), minutes, seconds and milliseconds of a
/// millisecond count.
pub open spec fn position_of(total_millis: int) -> (int, int, int, int) {
    (
        if total_millis / 3_600_000 > 255 { 255 } else { total_millis / 3_600_000 },
        (total_millis / 60_000) % 60,
        (total_millis / 1000) % 60,
        total_millis % 1000,
    )
}

impl TransportPosition {
    /// The fields as hours, minutes, seconds, milliseconds.
    pub open spec fn fields(&self) -> (int, int, int, int) {
        (
            self.spec_hours() as int,
            self.spec_minutes() as int,
            self.spec_seconds() as int,
            self.spec_millis() as int,
        )
    }

    /// Hours, saturated at 255.
    pub closed spec fn spec_hours(&self) -> u8 {
        self.hours
    }

    /// Minutes within the hour.
    pub closed spec fn spec_minutes(&self) -> u8 {
        self.minutes
    }

    /// Seconds within the minute.
    pub closed spec fn spec_seconds(&self) -> u8 {
        self.seconds
    }

    /// Milliseconds within the second.
    pub closed spec fn spec_millis(&self) -> u16 {
        self.millis
    }

    /// The position at zero.
    pub fn zero() -> (r: TransportPosition)
        ensures
            r.spec_hours() == 0 && r.spec_minutes() == 0 && r.spec_seconds() == 0
                && r.spec_millis() == 0,
    {
        TransportPosition { hours: 0, minutes: 0, seconds: 0, millis: 0 }
    }

    /// Splits a millisecond count into fields; hours saturate at 255.
    pub fn from_millis(total_millis: u64) -> (r: TransportPosition)
        ensures
            r.fields() == position_of(total_millis as int),
    {
        let millis = (total_millis % 1000) as u16;
        let total_seconds = total_millis / 1000;
        let seconds = (total_seconds % 60) as u8;
        let total_minutes = total_seconds / 60;
        let minutes = (total_minutes % 60) as u8;
        let total_hours = total_minutes / 60;
        let hours = if total_hours > 255 {
            255u8
        } else {
            total_hours as u8
        };
        proof {
            assert(total_millis as int / 1000 / 60 == total_millis as int / 60_000) by (nonlinear_arith);
            assert(total_millis as int / 1000 / 60 / 60 == total_millis as int / 3_600_000)
                by (nonlinear_arith);
        }
        TransportPosition { hours, minutes, seconds, millis }
    }

    /// The position a timestamp marks at the given rate, to the millisecond
    /// below.
    pub fn from_timestamp(timestamp: Timestamp, sample_rate: SampleRate) -> (r: TransportPosition)
        ensures
            r.fields() == position_of(
                timestamp.spec_samples() as int * 1000 / rate_hz(sample_rate) as int,
            ),
    {
        let hz = sample_rate.as_hz() as u128;
        let total = (timestamp.as_samples() as u128) * 1000u128 / hz;
        proof {
            assert(timestamp.spec_samples() as int * 1000 / rate_hz(sample_rate) as int
                <= u64::MAX as int) by (nonlinear_arith)
                requires rate_hz(sample_rate) >= 44100;
        }
        TransportPosition::from_millis(total as u64)
    }

    /// Total milliseconds of this position.
    pub fn total_millis(self) -> (r: u64)
        ensures
            r as int == position_millis(
                self.spec_hours(),
                self.spec_minutes(),
                self.spec_seconds(),
                self.spec_millis(),
            ),
    {
        (self.hours as u64) * 3_600_000 + (self.minutes as u64) * 60_000 + (self.seconds as u64)
            * 1000 + (self.millis as u64)
    }
}

} // verus!
