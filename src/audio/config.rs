//! Stream configuration and the choice of a device configuration.
use vstd::prelude::*;

use crate::types::audio::{channels_of, BitDepth, ChannelCount};
use crate::types::sample::{rate_hz, SampleRate};
use crate::types::AudioFormat;

verus! {

/// Sample representation a device offers.
#[derive(Debug, Clone, Copy, PartialEq, Eq, Structural)]
pub enum SampleFormat {
    /// 16-bit signed integer.
    I16,
    /// 32-bit signed integer.
    I32,
    /// 32-bit floating point.
    F32,
    /// 64-bit floating point.
    F64,
    /// 8-bit unsigned integer.
    U8,
}

/// One configuration a device supports.
#[derive(Debug, Clone)]
pub struct SupportedConfig {
    /// Number of channels.
    pub channels: u32,
    /// Supported sample rates.
    pub sample_rates: Vec<SampleRate>,
    /// Sample representation.
    pub sample_format: SampleFormat,
}

/// The supported rates `r` with `min_hz <= r < max_hz`, in increasing order.
pub open spec fn rates_between(min_hz: u32, max_hz: u32) -> Seq<SampleRate> {
    seq![SampleRate::Hz44100, SampleRate::Hz48000, SampleRate::Hz96000, SampleRate::Hz192000].filter(
        |r: SampleRate| min_hz <= rate_hz(r) && rate_hz(r) < max_hz,
    )
}

/// The supported rates that fall in `min_hz..max_hz`, in increasing order.
pub fn rates_in_range(min_hz: u32, max_hz: u32) -> (r: Vec<SampleRate>)
    ensures
        r@ == rates_between(min_hz, max_hz),
{
    let all = SampleRate::all();
    let ghost whole = all@;
    let mut out: Vec<SampleRate> = Vec::new();
    let mut i: usize = 0;
    while i < 4
        invariant
            i <= 4,
            all@ == whole,
            whole == seq![SampleRate::Hz44100, SampleRate::Hz48000, SampleRate::Hz96000, SampleRate::Hz192000],
            out@ == whole.take(i as int).filter(
                |r: SampleRate| min_hz <= rate_hz(r) && rate_hz(r) < max_hz,
            ),
        decreases 4 - i,
    {
        let rate = all[i];
        let hz = rate.as_hz();
        proof {
            assert(whole.take(i as int + 1).drop_last() =~= whole.take(i as int));
            reveal(Seq::filter);
        }
        if min_hz <= hz && hz < max_hz {
            out.push(rate);
        }
        i += 1;
    }
    proof {
        assert(whole.take(4) =~= whole);
    }
    out
}

/// Whether `c` carries at least the format's channels at its rate.
pub open spec fn fits(c: SupportedConfig, format: AudioFormat) -> bool {
    c.channels >= channels_of(format.channels) && c.sample_rates@.contains(format.sample_rate)
}

/// Whether some configuration in `configs` fits the format.
pub open spec fn any_fits(configs: Seq<SupportedConfig>, format: AudioFormat) -> bool {
    exists|i: int| 0 <= i < configs.len() && fits(configs[i], format)
}

impl SupportedConfig {
    /// The configuration a device advertises for `channels` channels over
    /// the rates `min_hz..max_hz`; `None` when no supported rate falls in
    /// that range.
    pub fn from_range(channels: u32, min_hz: u32, max_hz: u32, sample_format: SampleFormat) -> (r:
        Option<SupportedConfig>)
        ensures
            rates_between(min_hz, max_hz).len() == 0 <==> r is None,
            r is Some ==> r->0.channels == channels && r->0.sample_rates@ == rates_between(
                min_hz,
                max_hz,
            ) && r->0.sample_format == sample_format,
    {
        let sample_rates = rates_in_range(min_hz, max_hz);
        if sample_rates.len() == 0 {
            None
        } else {
            Some(SupportedConfig { channels, sample_rates, sample_format })
        }
    }

    /// Whether this configuration offers the given rate.
    pub fn has_rate(&self, rate: SampleRate) -> (r: bool)
        ensures
            r == self.sample_rates@.contains(rate),
    {
        let mut i: usize = 0;
        while i < self.sample_rates.len()
            invariant
                i <= self.sample_rates@.len(),
                forall|j: int| 0 <= j < i ==> self.sample_rates@[j] != rate,
            decreases self.sample_rates@.len() - i,
        {
            if self.sample_rates[i] == rate {
                proof {
                    assert(self.sample_rates@[i as int] == rate);
                }
                return true;
            }
            i += 1;
        }
        false
    }
}

/// Whether some configuration carries the format's channel count (or more)
/// at its sample rate.
pub fn supports_format(configs: &Vec<SupportedConfig>, format: &AudioFormat) -> (r: bool)
    ensures
        r == any_fits(configs@, *format),
{
    let wanted = format.channels.count();
    let mut i: usize = 0;
    while i < configs.len()
        invariant
            i <= configs@.len(),
            wanted == channels_of(format.channels),
            forall|j: int| 0 <= j < i ==> !fits(#[trigger] configs@[j], *format),
        decreases configs@.len() - i,
    {
        if configs[i].channels >= wanted && configs[i].has_rate(format.sample_rate) {
            proof {
                assert(fits(configs@[i as int], *format));
            }
            return true;
        }
        i += 1;
    }
    false
}

/// The channel count to open a stream with for `format`: a configuration
/// with exactly the format's channels is preferred, one with more is
/// accepted; either way the stream carries the format's channels. `None`
/// when no configuration fits.
pub fn stream_channels(configs: &Vec<SupportedConfig>, format: &AudioFormat) -> (r: Option<u16>)
    ensures
        any_fits(configs@, *format) <==> r is Some,
        r is Some ==> r->0 == channels_of(format.channels),
{
    let wanted = format.channels.count();
    let mut i: usize = 0;
    while i < configs.len()
        invariant
            i <= configs@.len(),
            1 <= wanted <= 8,
            wanted == channels_of(format.channels),
        decreases configs@.len() - i,
    {
        if configs[i].channels == wanted && configs[i].has_rate(format.sample_rate) {
            proof {
                assert(fits(configs@[i as int], *format));
            }
            return Some(configs[i].channels as u16);
        }
        i += 1;
    }
    if supports_format(configs, format) {
        Some(wanted as u16)
    } else {
        None
    }
}

/// Some configuration among the first `n` of `configs` offers `rate`.
pub open spec fn offered_by_first(configs: Seq<SupportedConfig>, n: int, rate: SampleRate) -> bool {
    exists|k: int| 0 <= k < n && (#[trigger] configs[k]).sample_rates@.contains(rate)
}

/// Whether `rates` holds `rate`.
fn rates_contain(rates: &Vec<SampleRate>, rate: SampleRate) -> (r: bool)
    ensures
        r == rates@.contains(rate),
{
    let mut i: usize = 0;
    while i < rates.len()
        invariant
            i <= rates@.len(),
            forall|j: int| 0 <= j < i ==> rates@[j] != rate,
        decreases rates@.len() - i,
    {
        if rates[i] == rate {
            proof {
                assert(rates@[i as int] == rate);
            }
            return true;
        }
        i += 1;
    }
    false
}

/// `x` is among the first `n` elements of `s`.
pub open spec fn in_prefix(s: Seq<SampleRate>, n: int, x: SampleRate) -> bool {
    exists|m: int| 0 <= m < n && s[m] == x
}

/// `acc` followed by each rate of `rs`, in order, that is not already there.
pub open spec fn append_new(acc: Seq<SampleRate>, rs: Seq<SampleRate>) -> Seq<SampleRate>
    decreases rs.len(),
{
    if rs.len() == 0 {
        acc
    } else {
        let a = append_new(acc, rs.drop_last());
        if a.contains(rs.last()) {
            a
        } else {
            a.push(rs.last())
        }
    }
}

/// The rates of the first `n` configurations, once each, in order of first
/// appearance.
pub open spec fn first_appearances(configs: Seq<SupportedConfig>, n: int) -> Seq<SampleRate>
    decreases n,
{
    if n <= 0 {
        Seq::empty()
    } else {
        append_new(first_appearances(configs, n - 1), configs[n - 1].sample_rates@)
    }
}

/// Every rate that some configuration offers, once each, in order of first
/// appearance.
pub fn distinct_rates(configs: &Vec<SupportedConfig>) -> (r: Vec<SampleRate>)
    ensures
        r@ == first_appearances(configs@, configs@.len() as int),
        r@.no_duplicates(),
        forall|rate: SampleRate| r@.contains(rate) <==> offered_by_first(configs@, configs@.len() as int, rate),
{
    let mut out: Vec<SampleRate> = Vec::new();
    let mut i: usize = 0;
    while i < configs.len()
        invariant
            i <= configs@.len(),
            out@.no_duplicates(),
            out@ == first_appearances(configs@, i as int),
            forall|x: SampleRate| out@.contains(x) <==> offered_by_first(configs@, i as int, x),
        decreases configs@.len() - i,
    {
        let rates = &configs[i].sample_rates;
        let ghost rs = rates@;
        let mut j: usize = 0;
        while j < rates.len()
            invariant
                i < configs@.len(),
                rs == configs@[i as int].sample_rates@,
                rs == rates@,
                j <= rs.len(),
                out@.no_duplicates(),
                out@ == append_new(first_appearances(configs@, i as int), rs.take(j as int)),
                forall|x: SampleRate|
                    out@.contains(x) <==> (offered_by_first(configs@, i as int, x) || in_prefix(rs, j as int, x)),
            decreases rs.len() - j,
        {
            let rate = rates[j];
            let ghost out0 = out@;
            proof {
                assert(rs.take(j as int + 1).drop_last() =~= rs.take(j as int));
                assert(rs.take(j as int + 1).last() == rate);
            }
            if !rates_contain(&out, rate) {
                out.push(rate);
                proof {
                    assert forall|x: SampleRate| out@.contains(x) <==> (out0.contains(x) || x == rate)
                        by {
                        if out@.contains(x) {
                            let k = choose|k: int| 0 <= k < out@.len() && out@[k] == x;
                            if k < out0.len() {
                                assert(out0[k] == x);
                            }
                        }
                        if out0.contains(x) {
                            let k = choose|k: int| 0 <= k < out0.len() && out0[k] == x;
                            assert(out@[k] == x);
                        }
                        if x == rate {
                            assert(out@[out0.len() as int] == x);
                        }
                    }
                }
            }
            proof {
                assert forall|x: SampleRate|
                    in_prefix(rs, j as int + 1, x) <==> (in_prefix(rs, j as int, x) || x == rate) by {
                    if x == rate {
                        assert(rs[j as int] == x);
                    }
                    if in_prefix(rs, j as int + 1, x) && x != rate {
                        let m = choose|m: int| 0 <= m < j + 1 && rs[m] == x;
                        assert(m < j);
                    }
                    if in_prefix(rs, j as int, x) {
                        let m = choose|m: int| 0 <= m < j && rs[m] == x;
                        assert(rs[m] == x && m < j + 1);
                    }
                }
                assert(out0.contains(rate) || out@.contains(rate));
                assert(out@.contains(rate));
                assert forall|x: SampleRate|
                    out@.contains(x) <==> (offered_by_first(configs@, i as int, x) || in_prefix(
                        rs,
                        j as int + 1,
                        x,
                    )) by {
                    assert(out0.contains(x) <==> (offered_by_first(configs@, i as int, x)
                        || in_prefix(rs, j as int, x)));
                    assert(out@.contains(x) <==> (out0.contains(x) || x == rate));
                }
            }
            j += 1;
        }
        proof {
            assert(rs.take(rs.len() as int) =~= rs);
            assert(out@ == first_appearances(configs@, i as int + 1));
            assert forall|x: SampleRate|
                offered_by_first(configs@, i as int + 1, x) <==> (offered_by_first(configs@, i as int, x)
                    || in_prefix(rs, rs.len() as int, x)) by {
                if offered_by_first(configs@, i as int + 1, x) {
                    let k = choose|k: int|
                        0 <= k < i + 1 && (#[trigger] configs@[k]).sample_rates@.contains(x);
                    if k < i {
                        assert(offered_by_first(configs@, i as int, x));
                    } else {
                        let m = choose|m: int| 0 <= m < rs.len() && rs[m] == x;
                        assert(in_prefix(rs, rs.len() as int, x));
                    }
                }
                if in_prefix(rs, rs.len() as int, x) {
                    let m = choose|m: int| 0 <= m < rs.len() && rs[m] == x;
                    assert(configs@[i as int].sample_rates@[m] == x);
                    assert(configs@[i as int].sample_rates@.contains(x));
                }
            }
        }
        i += 1;
    }
    out
}

/// The largest channel count among `configs`, or 2 when there is none.
pub fn max_channels(configs: &Vec<SupportedConfig>) -> (r: u32)
    ensures
        configs@.len() == 0 ==> r == 2,
        configs@.len() > 0 ==> (exists|i: int| 0 <= i < configs@.len() && configs@[i].channels == r)
            && (forall|i: int| 0 <= i < configs@.len() ==> configs@[i].channels <= r),
{
    if configs.len() == 0 {
        return 2;
    }
    let mut best = configs[0].channels;
    let mut i: usize = 1;
    while i < configs.len()
        invariant
            1 <= i <= configs@.len(),
            exists|k: int| 0 <= k < i && configs@[k].channels == best,
            forall|k: int| 0 <= k < i ==> configs@[k].channels <= best,
        decreases configs@.len() - i,
    {
        if configs[i].channels > best {
            best = configs[i].channels;
        }
        i += 1;
    }
    best
}

/// Rate, channel layout and buffer length of a stream.
#[derive(Debug, Clone)]
pub struct StreamConfig {
    /// Sample rate.
    pub sample_rate: SampleRate,
    /// Channels per frame.
    pub channels: ChannelCount,
    /// Frames per buffer.
    pub buffer_frames: usize,
}

impl StreamConfig {
    /// Creates a stream configuration.
    pub fn new(sample_rate: SampleRate, channels: ChannelCount, buffer_frames: usize) -> (r:
        StreamConfig)
        ensures
            r.sample_rate == sample_rate,
            r.channels == channels,
            r.buffer_frames == buffer_frames,
    {
        StreamConfig { sample_rate, channels, buffer_frames }
    }

    /// The audio format of the stream: its rate and channels, 32-bit float.
    pub fn to_audio_format(&self) -> (r: AudioFormat)
        ensures
            r == (AudioFormat {
                sample_rate: self.sample_rate,
                channels: self.channels,
                bit_depth: BitDepth::F32,
            }),
    {
        AudioFormat::new(self.sample_rate, self.channels, BitDepth::F32)
    }

    /// Samples a ring buffer needs to hold `periods` buffers of this
    /// stream, or `None` when that does not fit in `usize`.
    pub fn ring_capacity(&self, periods: usize) -> (r: Option<usize>)
        ensures
            r is Some <==> self.buffer_frames * channels_of(self.channels) * periods <= usize::MAX,
            r is Some ==> r->0 == self.buffer_frames * channels_of(self.channels) * periods,
    {
        let ch = self.channels.count_usize();
        if periods == 0 {
            proof {
                assert(self.buffer_frames * channels_of(self.channels) * periods == 0);
            }
            return Some(0);
        }
        match self.buffer_frames.checked_mul(ch) {
            Some(samples) => samples.checked_mul(periods),
            None => {
                proof {
                    assert(self.buffer_frames * channels_of(self.channels) * periods
                        > usize::MAX) by (nonlinear_arith)
                        requires
                            self.buffer_frames * channels_of(self.channels) > usize::MAX,
                            periods >= 1,
                    ;
                }
                None
            },
        }
    }
}

impl Default for StreamConfig {
    fn default() -> (r: StreamConfig)
        ensures
            r.sample_rate == SampleRate::Hz48000,
            r.channels == ChannelCount::Stereo,
            r.buffer_frames == 512,
    {
        StreamConfig {
            sample_rate: SampleRate::Hz48000,
            channels: ChannelCount::Stereo,
            buffer_frames: 512,
        }
    }
}

} // verus!
