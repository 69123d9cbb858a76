use rt_audio_engine::audio::config::{
    distinct_rates, max_channels, rates_in_range, stream_channels, supports_format,
};
use rt_audio_engine::audio::{SampleFormat, StreamConfig, SupportedConfig};
use rt_audio_engine::dsp::{EffectId, FilterType, ParamId};
use rt_audio_engine::io::{
    AudioFileFormat, DeviceInputConfig, DeviceOutputConfig, FileOutput, Mp3Settings, NetworkInput,
    NetworkOutput, OutputFileFormat, OutputTarget,
};
use rt_audio_engine::markers::{assert_heap_free, assert_non_blocking, assert_realtime_safe};
use rt_audio_engine::buffer::RealtimeBuffer;
use rt_audio_engine::types::{
    AudioFormat, BitDepth, ChannelCount, DeviceId, DeviceType, NetworkProtocol, SampleRate,
    StreamBitrate, StreamUrl,
};

fn stereo_48k() -> AudioFormat {
    AudioFormat::new(SampleRate::Hz48000, ChannelCount::Stereo, BitDepth::F32)
}

#[test]
fn file_format_from_extension() {
    assert_eq!(AudioFileFormat::from_extension("WAV"), Some(AudioFileFormat::Wav));
    assert_eq!(AudioFileFormat::from_extension("wave"), Some(AudioFileFormat::Wav));
    assert_eq!(AudioFileFormat::from_extension("Oga"), Some(AudioFileFormat::Ogg));
    assert_eq!(AudioFileFormat::from_extension("txt"), None);
    assert_eq!(AudioFileFormat::from_lowercase_extension("FLAC"), None);
    assert_eq!(AudioFileFormat::Mp3.mime_type(), "audio/mpeg");
    assert_eq!(AudioFileFormat::Flac.extension(), "flac");
}

#[test]
fn output_descriptions() {
    let dev = OutputTarget::device(DeviceId::new("hw:1", DeviceType::Output));
    assert_eq!(dev.description(), "Device: output:hw:1");
    assert_eq!(OutputTarget::default_device().description(), "Device: output:default");
    let file = OutputTarget::file("/tmp/out.wav", OutputFileFormat::Wav);
    assert_eq!(file.description(), "File: /tmp/out.wav");
    assert_eq!(OutputTarget::null().description(), "Null");
    let url = StreamUrl::parse("rtmp://h/app/k").unwrap();
    assert_eq!(OutputTarget::Network(NetworkOutput::new(url)).description(), "Network: rtmp://h/app/k");
}

#[test]
fn output_builders() {
    let cfg = DeviceOutputConfig::new(DeviceId::default_output())
        .with_format(stereo_48k())
        .exclusive();
    assert!(cfg.exclusive);
    assert_eq!(cfg.format, Some(stereo_48k()));
    assert!(!DeviceOutputConfig::default().exclusive);
    let f = FileOutput::mp3("a.mp3").with_audio_format(stereo_48k());
    assert_eq!(f.format.extension(), "mp3");
    assert_eq!(f.audio_format, Some(stereo_48k()));
    assert_eq!(FileOutput::wav("a.wav").format.extension(), "wav");
    let s = Mp3Settings::default();
    assert_eq!(s.quality, 2);
    assert_eq!(s.bitrate.as_kbps(), 192);
    let url = StreamUrl::parse("rtmp://h/app/k").unwrap();
    let n = NetworkOutput::new(url).with_buffer_ms(250).with_audio_bitrate(StreamBitrate::from_kbps(128));
    assert_eq!(n.buffer_ms, 250);
    assert_eq!(n.audio_bitrate.as_bps(), 128_000);
}

#[test]
fn input_builders() {
    let d = DeviceInputConfig::default().with_format(stereo_48k());
    assert_eq!(d.device_id.as_str(), "default");
    assert_eq!(d.format, Some(stereo_48k()));
    let url = StreamUrl::parse("http://h/x.m3u8").unwrap();
    let n = NetworkInput::new(url).with_buffer_ms(2000).without_reconnect();
    assert_eq!(n.buffer_ms, 2000);
    assert!(!n.auto_reconnect);
    assert_eq!(n.protocol(), NetworkProtocol::HLS);
}

#[test]
fn supported_rates_half_open_range() {
    assert_eq!(rates_in_range(44100, 96000), vec![SampleRate::Hz44100, SampleRate::Hz48000]);
    assert_eq!(rates_in_range(8000, 400000).len(), 4);
    assert!(rates_in_range(1, 44100).is_empty());
    assert!(SupportedConfig::from_range(2, 8000, 22050, SampleFormat::F32).is_none());
    let c = SupportedConfig::from_range(2, 44100, 48001, SampleFormat::I16).unwrap();
    assert_eq!(c.sample_rates, vec![SampleRate::Hz44100, SampleRate::Hz48000]);
    assert!(c.has_rate(SampleRate::Hz48000));
    assert!(!c.has_rate(SampleRate::Hz96000));
}

#[test]
fn config_selection() {
    let configs = vec![
        SupportedConfig { channels: 1, sample_rates: vec![SampleRate::Hz48000], sample_format: SampleFormat::F32 },
        SupportedConfig { channels: 6, sample_rates: vec![SampleRate::Hz48000], sample_format: SampleFormat::F32 },
    ];
    assert!(supports_format(&configs, &stereo_48k()));
    assert_eq!(stream_channels(&configs, &stereo_48k()), Some(2));
    let at_96k = AudioFormat::new(SampleRate::Hz96000, ChannelCount::Stereo, BitDepth::F32);
    assert!(!supports_format(&configs, &at_96k));
    assert_eq!(stream_channels(&configs, &at_96k), None);
    let surround = AudioFormat::new(SampleRate::Hz48000, ChannelCount::Surround71, BitDepth::F32);
    assert_eq!(stream_channels(&configs, &surround), None);
    assert_eq!(max_channels(&configs), 6);
    let more = vec![
        SupportedConfig { channels: 2, sample_rates: vec![SampleRate::Hz48000, SampleRate::Hz44100], sample_format: SampleFormat::I16 },
        SupportedConfig { channels: 2, sample_rates: vec![SampleRate::Hz44100, SampleRate::Hz96000], sample_format: SampleFormat::F32 },
    ];
    assert_eq!(distinct_rates(&more), vec![SampleRate::Hz48000, SampleRate::Hz44100, SampleRate::Hz96000]);
    assert!(distinct_rates(&Vec::new()).is_empty());
    assert_eq!(max_channels(&Vec::new()), 2);
}

#[test]
fn stream_config_values() {
    let c = StreamConfig::default();
    assert_eq!(c.buffer_frames, 512);
    assert_eq!(c.to_audio_format(), stereo_48k());
    assert_eq!(c.ring_capacity(4), Some(4096));
    assert_eq!(StreamConfig::new(SampleRate::Hz44100, ChannelCount::Quad, usize::MAX).ring_capacity(2), None);
    assert_eq!(StreamConfig::new(SampleRate::Hz44100, ChannelCount::Quad, usize::MAX).ring_capacity(0), Some(0));
}

#[test]
fn ids_and_filter_names() {
    assert_eq!(EffectId::new(7).value(), 7);
    assert_eq!(EffectId::from(3), EffectId::new(3));
    assert_eq!(ParamId::from(2).value(), 2);
    assert_eq!(FilterType::HighShelf.name(), "High Shelf");
    assert_eq!(FilterType::BandPass.name(), "Band Pass");
}

#[test]
fn markers_compile_for_realtime_types() {
    assert_realtime_safe::<RealtimeBuffer<u32>>();
    assert_heap_free::<ChannelCount>();
    assert_non_blocking::<(u8, bool)>();
}
