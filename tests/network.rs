use rt_audio_engine::error::AudioEngineError;
use rt_audio_engine::types::{NetworkProtocol, StreamBitrate, StreamUrl};

fn reason_of(r: Result<StreamUrl, AudioEngineError>) -> String {
    match r {
        Err(AudioEngineError::InvalidStreamUrl { reason, .. }) => reason,
        other => panic!("expected an invalid URL, got {other:?}"),
    }
}

#[test]
fn parse_rtmp_with_stream_key() {
    let u = StreamUrl::parse("rtmp://live.example.com/app/streamkey").unwrap();
    assert_eq!(u.protocol(), NetworkProtocol::RTMP);
    assert_eq!(u.host(), "live.example.com");
    assert_eq!(u.port(), 1935);
    assert_eq!(u.path(), "app");
    assert_eq!(u.stream_key(), Some("streamkey"));
    assert_eq!(u.as_str(), "rtmp://live.example.com/app/streamkey");
}

#[test]
fn parse_rtmp_key_only_and_bare() {
    let u = StreamUrl::parse("rtmps://host/key").unwrap();
    assert_eq!(u.protocol(), NetworkProtocol::RTMP);
    assert_eq!(u.path(), "");
    assert_eq!(u.stream_key(), Some("key"));
    let bare = StreamUrl::parse("rtmp://host").unwrap();
    assert_eq!(bare.path(), "");
    assert_eq!(bare.stream_key(), None);
}

#[test]
fn parse_http_with_port() {
    let u = StreamUrl::parse("http://example.com:8080/live/stream.m3u8").unwrap();
    assert_eq!(u.protocol(), NetworkProtocol::HLS);
    assert_eq!(u.host(), "example.com");
    assert_eq!(u.port(), 8080);
    assert_eq!(u.path(), "live/stream.m3u8");
    assert_eq!(u.stream_key(), None);
}

#[test]
fn parse_rtp_default_port_and_trim() {
    let u = StreamUrl::parse("  rtp://10.0.0.1  ").unwrap();
    assert_eq!(u.protocol(), NetworkProtocol::RTP);
    assert_eq!(u.host(), "10.0.0.1");
    assert_eq!(u.port(), 5004);
    assert_eq!(u.path(), "");
    assert_eq!(u.as_str(), "rtp://10.0.0.1");
    let h = StreamUrl::parse("https://cdn.example.org/a").unwrap();
    assert_eq!(h.port(), 80);
}

#[test]
fn parse_port_with_plus_sign() {
    let u = StreamUrl::parse("rtp://h:+80").unwrap();
    assert_eq!(u.port(), 80);
    let top = StreamUrl::parse("rtp://h:65535").unwrap();
    assert_eq!(top.port(), 65535);
}

#[test]
fn parse_rejects_unknown_scheme() {
    let err = StreamUrl::parse("ftp://example.com").unwrap_err();
    assert_eq!(
        err,
        AudioEngineError::InvalidStreamUrl {
            url: String::from("ftp://example.com"),
            reason: String::from("Missing or unsupported protocol scheme"),
        }
    );
}

#[test]
fn parse_rejects_bad_ports() {
    assert_eq!(reason_of(StreamUrl::parse("rtmp://host:abc/x")), "Invalid port: abc");
    assert_eq!(reason_of(StreamUrl::parse("rtmp://host:65536/x")), "Invalid port: 65536");
    assert_eq!(reason_of(StreamUrl::parse("rtmp://host:/x")), "Invalid port: ");
    assert_eq!(reason_of(StreamUrl::parse("rtmp://host:+/x")), "Invalid port: +");
}

#[test]
fn parse_rejects_empty_host() {
    assert_eq!(reason_of(StreamUrl::parse("rtmp://:1935/app")), "Empty Host");
    assert_eq!(reason_of(StreamUrl::parse("http://")), "Empty Host");
}

#[test]
fn protocol_names_and_ports() {
    assert_eq!(NetworkProtocol::from_name("RTMP"), Ok(NetworkProtocol::RTMP));
    assert_eq!(NetworkProtocol::from_name("Hls"), Ok(NetworkProtocol::HLS));
    assert_eq!(NetworkProtocol::from_name("rtp"), Ok(NetworkProtocol::RTP));
    assert!(matches!(
        NetworkProtocol::from_name("srt"),
        Err(AudioEngineError::InvalidStreamUrl { .. })
    ));
    assert_eq!(NetworkProtocol::from_lowercase_name("RTMP"), None);
    assert_eq!(NetworkProtocol::RTMP.default_port(), 1935);
    assert_eq!(NetworkProtocol::HLS.scheme(), "https");
    assert_eq!(NetworkProtocol::default(), NetworkProtocol::RTMP);
}

#[test]
fn bitrate_conversions() {
    assert_eq!(StreamBitrate::from_kbps(320).as_bps(), 320_000);
    assert_eq!(StreamBitrate::from_bps(128_500).as_kbps(), 128);
    assert_eq!(StreamBitrate::default().as_kbps(), 192);
}
