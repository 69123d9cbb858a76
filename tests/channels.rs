use std::time::Duration;

use rt_audio_engine::channel::{control_channel, feedback_channel, wait_secs, EngineState, MAX_WAIT_SECS};
use rt_audio_engine::error::AudioEngineError;

#[test]
fn control_channel_delivers_in_order() {
    let (tx, rx) = control_channel::<u32>(4);
    assert!(tx.send(1).is_ok());
    assert!(tx.try_send(2).is_ok());
    assert_eq!(tx.len(), 2);
    assert!(!rx.is_empty());
    assert_eq!(rx.try_recv(), Some(1));
    assert_eq!(rx.drain(), vec![2]);
    assert_eq!(rx.try_recv(), None);
    assert!(rx.is_empty());
}

#[test]
fn control_try_send_full() {
    let (tx, rx) = control_channel::<u32>(1);
    assert!(tx.try_send(1).is_ok());
    assert_eq!(tx.try_send(2), Err(AudioEngineError::RingBufferFull { count: 1 }));
    assert_eq!(rx.len(), 1);
}

#[test]
fn control_sender_dropped_disconnects_receiver() {
    let (tx, rx) = control_channel::<u32>(2);
    let tx2 = tx.clone();
    drop(tx);
    assert!(!rx.is_disconnected());
    drop(tx2);
    assert!(rx.is_disconnected());
    assert_eq!(rx.try_recv(), None);
}

#[test]
fn control_receiver_dropped_fails_send() {
    let (tx, rx) = control_channel::<u32>(2);
    drop(rx);
    assert!(tx.is_disconnected());
    assert_eq!(tx.send(1), Err(AudioEngineError::ChannelSendFailed));
    assert_eq!(tx.try_send(1), Err(AudioEngineError::ChannelSendFailed));
}

#[test]
fn feedback_channel_never_blocks_sender() {
    let (tx, rx) = feedback_channel::<EngineState>(1);
    assert!(tx.try_send(EngineState::Running));
    assert!(!tx.try_send(EngineState::Paused));
    assert_eq!(tx.len(), 1);
    assert_eq!(rx.recv(), Ok(EngineState::Running));
    assert!(rx.is_empty());
}

#[test]
fn feedback_recv_after_sender_dropped() {
    let (tx, rx) = feedback_channel::<u8>(2);
    assert!(tx.clone().try_send(3));
    drop(tx);
    assert_eq!(rx.recv(), Ok(3));
    assert_eq!(rx.recv(), Err(AudioEngineError::ChannelRecvFailed));
    assert!(rx.is_disconnected());
}

#[test]
fn feedback_recv_timeout_expires() {
    let (tx, rx) = feedback_channel::<u8>(2);
    assert_eq!(
        rx.recv_timeout(Duration::from_millis(5)),
        Err(AudioEngineError::ChannelRecvFailed)
    );
    assert!(tx.try_send(9));
    assert_eq!(rx.try_recv(), Some(9));
    assert!(!tx.is_disconnected());
    assert!(tx.is_empty());
}

#[test]
fn recv_timeout_accepts_longest_duration() {
    let (tx, rx) = feedback_channel::<u8>(2);
    assert!(tx.try_send(4));
    assert_eq!(rx.recv_timeout(Duration::MAX), Ok(4));
    drop(tx);
    assert_eq!(rx.recv_timeout(Duration::MAX), Err(AudioEngineError::ChannelRecvFailed));
}

#[test]
fn wait_secs_caps_long_waits() {
    assert_eq!(wait_secs(0), 0);
    assert_eq!(wait_secs(90), 90);
    assert_eq!(wait_secs(MAX_WAIT_SECS), MAX_WAIT_SECS);
    assert_eq!(wait_secs(u64::MAX), MAX_WAIT_SECS);
}
