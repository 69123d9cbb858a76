use std::time::Duration;

use rt_audio_engine::error::AudioEngineError;
use rt_audio_engine::types::{
    AudioFormat, BitDepth, BufferSize, ChannelCount, ChannelLayout, DeviceId, DeviceInfo,
    DeviceType, FrameCount, SampleRate, Timestamp, TransportPosition,
};

#[test]
fn sample_rate_values() {
    assert_eq!(SampleRate::Hz44100.as_hz(), 44100);
    assert_eq!(SampleRate::Hz192000.as_hz(), 192000);
    assert_eq!(SampleRate::from_hz(96000), Ok(SampleRate::Hz96000));
    assert_eq!(SampleRate::from_hz(192000), Ok(SampleRate::Hz192000));
    assert_eq!(
        SampleRate::from_hz(22050),
        Err(AudioEngineError::InvalidSampleRate { value: 22050 })
    );
    assert_eq!(SampleRate::default(), SampleRate::Hz48000);
    assert_eq!(SampleRate::all().len(), 4);
}

#[test]
fn sample_rate_arithmetic() {
    assert_eq!(SampleRate::Hz48000.samples_for_milliseconds(10), 480);
    assert_eq!(SampleRate::Hz44100.samples_for_milliseconds(10), 441);
    assert_eq!(SampleRate::Hz44100.samples_for_milliseconds(1), 44);
    assert_eq!(SampleRate::Hz192000.samples_for_milliseconds(u32::MAX), u32::MAX);
    assert_eq!(SampleRate::Hz48000.period_nanos(), 20833);
}

#[test]
fn channel_count_values() {
    assert_eq!(ChannelCount::Surround51.count(), 6);
    assert_eq!(ChannelCount::Quad.count_usize(), 4);
    assert!(!ChannelCount::Mono.is_stereo_compatible());
    assert!(ChannelCount::Surround71.is_stereo_compatible());
    assert_eq!(ChannelCount::from_count(8), Ok(ChannelCount::Surround71));
    assert_eq!(
        ChannelCount::from_count(3),
        Err(AudioEngineError::InvalidChannelCount { value: 3 })
    );
}

#[test]
fn channel_layout_labels() {
    assert_eq!(ChannelLayout::Stereo.channel_labels(), &["L", "R"]);
    assert_eq!(ChannelLayout::Surround51.channel_labels().len(), 6);
    assert_eq!(ChannelLayout::Quad.channel_count(), ChannelCount::Quad);
    assert_eq!(ChannelLayout::from_count(ChannelCount::Mono), ChannelLayout::Mono);
    assert_eq!(ChannelLayout::default(), ChannelLayout::Stereo);
}

#[test]
fn buffer_size_validation() {
    assert_eq!(BufferSize::new(256).unwrap().as_u32(), 256);
    assert_eq!(BufferSize::new(100), Err(AudioEngineError::InvalidBufferSize { value: 100 }));
    assert_eq!(BufferSize::new(32), Err(AudioEngineError::InvalidBufferSize { value: 32 }));
    assert_eq!(BufferSize::new(16384), Err(AudioEngineError::InvalidBufferSize { value: 16384 }));
    assert_eq!(BufferSize::new(0), Err(AudioEngineError::InvalidBufferSize { value: 0 }));
    assert_eq!(BufferSize::default().as_usize(), 512);
}

#[test]
fn buffer_size_neighbours() {
    let b = BufferSize::new(64).unwrap();
    assert!(b.clone().next_smaller().is_none());
    assert_eq!(b.next_larger().unwrap().as_u32(), 128);
    let top = BufferSize::new(8192).unwrap();
    assert!(top.clone().next_larger().is_none());
    assert_eq!(top.next_smaller().unwrap().as_u32(), 4096);
}

#[test]
fn frame_count_arithmetic() {
    assert_eq!(FrameCount::new(10).total_samples(ChannelCount::Stereo), 20);
    assert_eq!(FrameCount::new(u64::MAX).total_samples(ChannelCount::Stereo), u64::MAX);
    assert_eq!(FrameCount::new(5).saturating_sub(FrameCount::new(7)).as_u64(), 0);
    assert_eq!(FrameCount::new(u64::MAX).saturating_add(FrameCount::new(1)).as_u64(), u64::MAX);
    assert_eq!(FrameCount::from_usize(3).as_u64(), 3);
}

#[test]
fn bit_depth_values() {
    assert_eq!(BitDepth::I24.bits(), 24);
    assert_eq!(BitDepth::I24.bytes_per_sample(), 3);
    assert!(BitDepth::F64.is_float());
    assert!(BitDepth::I16.is_integer());
    assert_eq!(BitDepth::default(), BitDepth::F32);
}

#[test]
fn audio_format_rates() {
    let cd = AudioFormat::cd_quality();
    assert_eq!(cd.byte_rate(), 44100 * 2 * 2);
    assert_eq!(cd.frame_size(), 4);
    let pro = AudioFormat::professional();
    assert_eq!(pro.byte_rate(), 48000 * 2 * 3);
    assert!(!cd.is_compatible_with(pro));
    let other = AudioFormat::new(SampleRate::Hz44100, ChannelCount::Stereo, BitDepth::F32);
    assert!(cd.is_compatible_with(other));
    assert_eq!(AudioFormat::default(), AudioFormat::new(SampleRate::Hz48000, ChannelCount::Stereo, BitDepth::F32));
    assert_eq!(AudioFormat::high_res().sample_rate, SampleRate::Hz96000);
}

#[test]
fn timestamp_arithmetic() {
    let t = Timestamp::from_samples(100);
    assert_eq!(t.sub_samples(30).as_samples(), 70);
    assert_eq!(t.sub_samples(300).as_samples(), 0);
    assert_eq!(t.diff(Timestamp::from_samples(250)), 150);
    assert_eq!(Timestamp::from_samples(250).diff(t), 150);
    assert_eq!(Timestamp::zero().as_samples(), 0);
}

#[test]
fn timestamp_durations() {
    let t = Timestamp::from_duration(Duration::from_millis(1500), SampleRate::Hz48000);
    assert_eq!(t.as_samples(), 72000);
    let d = Timestamp::from_samples(24000).to_duration(SampleRate::Hz48000);
    assert_eq!(d, Duration::from_millis(500));
    assert_eq!(Timestamp::from_secs_nanos(2, 0, SampleRate::Hz44100).as_samples(), 88200);
    assert_eq!(Timestamp::from_samples(48001).to_secs_nanos(SampleRate::Hz48000), (1, 20833));
}

#[test]
fn transport_position_fields() {
    let p = TransportPosition::from_millis(3_723_004);
    assert_eq!(p.total_millis(), 3_723_004);
    let q = TransportPosition::from_timestamp(Timestamp::from_samples(96_000), SampleRate::Hz48000);
    assert_eq!(q.total_millis(), 2000);
    assert_eq!(TransportPosition::zero().total_millis(), 0);
    let capped = TransportPosition::from_millis(300 * 3_600_000);
    assert_eq!(capped.total_millis(), 255 * 3_600_000);
}

#[test]
fn device_ids() {
    let id = DeviceId::new("hw:0", DeviceType::Input);
    assert_eq!(id.as_str(), "hw:0");
    assert!(id.is_input());
    assert!(!id.is_output());
    assert_eq!(DeviceId::default_output().device_type(), DeviceType::Output);
    assert_eq!(DeviceId::default_input().as_str(), "default");
}

#[test]
fn device_info_builders() {
    let info = DeviceInfo::new(DeviceId::default_output(), "Speakers")
        .with_max_channels(8)
        .with_sample_rates(vec![SampleRate::Hz44100])
        .as_default();
    assert_eq!(info.name, "Speakers");
    assert_eq!(info.max_channels, 8);
    assert_eq!(info.supported_sample_rates, vec![SampleRate::Hz44100]);
    assert!(info.is_default);
    let plain = DeviceInfo::new(DeviceId::default_input(), "Mic");
    assert_eq!(plain.max_channels, 2);
    assert_eq!(plain.supported_sample_rates, vec![SampleRate::Hz48000]);
}

#[test]
fn error_classification() {
    assert!(AudioEngineError::RingBufferFull { count: 1 }.is_recoverable());
    assert!(AudioEngineError::BufferUnderRun { requested: 2, available: 1 }.is_recoverable());
    assert!(!AudioEngineError::ChannelSendFailed.is_recoverable());
    assert!(AudioEngineError::ChannelRecvFailed.is_fatal());
    assert!(AudioEngineError::DeviceNotFound { device_name: String::from("x") }.is_fatal());
    assert!(!AudioEngineError::RingBufferEmpty { count: 1 }.is_fatal());
    assert_eq!(
        AudioEngineError::configuration("bad"),
        AudioEngineError::Configuration { message: String::from("bad") }
    );
    assert_eq!(
        AudioEngineError::numeric_conversion("nan"),
        AudioEngineError::NumericConversion { message: String::from("nan") }
    );
    assert_eq!(
        AudioEngineError::pipeline_state("stopped"),
        AudioEngineError::PipelineState { message: String::from("stopped") }
    );
}
