//! Bounded control and feedback channels between the real-time thread and
//! the rest of the application.
//!
//! Both directions run over one bounded `flume` channel; they differ in
//! which end may block. The real-time ends (`RealtimeReceiver`,
//! `RealtimeSender`) only offer operations that never wait.
//!
//! What a channel holds at a given moment depends on what the other thread
//! did meanwhile, so the contracts here say what holds of every outcome.
use core::time::Duration;
use flume::{Receiver, Sender};
use vstd::prelude::*;

use crate::error::AudioEngineError;
use crate::markers::{NonBlocking, RealtimeSafe};
use crate::types::time::{duration_secs, duration_subsec_nanos};

verus! {

#[verifier::external_type_specification]
#[verifier::external_body]
#[verifier::reject_recursive_types(T)]
pub struct ExSender<T>(Sender<T>);

#[verifier::external_type_specification]
#[verifier::external_body]
#[verifier::reject_recursive_types(T)]
pub struct ExReceiver<T>(Receiver<T>);

/// Why a non-blocking send did not deliver.
enum SendRefusal {
    Full,
    Disconnected,
}

/// Relies on `flume::bounded`: a channel that holds at most `cap` messages.
#[verifier::external_body]
fn channel_bounded<T>(cap: usize) -> (Sender<T>, Receiver<T>) {
    flume::bounded(cap)
}

/// Relies on `flume::Sender::send`: waits for room; fails only when every
/// receiver is gone.
#[verifier::external_body]
fn sender_send<T>(s: &Sender<T>, msg: T) -> (r: bool) {
    s.send(msg).is_ok()
}

/// Relies on `flume::Sender::try_send`: delivers, or says whether the
/// channel was full or every receiver is gone.
#[verifier::external_body]
fn sender_try_send<T>(s: &Sender<T>, msg: T) -> Result<(), SendRefusal> {
    match s.try_send(msg) {
        Ok(()) => Ok(()),
        Err(flume::TrySendError::Full(_)) => Err(SendRefusal::Full),
        Err(flume::TrySendError::Disconnected(_)) => Err(SendRefusal::Disconnected),
    }
}

/// Relies on `flume::Sender::is_disconnected`.
#[verifier::external_body]
fn sender_is_disconnected<T>(s: &Sender<T>) -> bool {
    s.is_disconnected()
}

/// Relies on `flume::Sender::len`.
#[verifier::external_body]
fn sender_len<T>(s: &Sender<T>) -> usize {
    s.len()
}

/// Relies on `flume::Sender::is_empty`.
#[verifier::external_body]
fn sender_is_empty<T>(s: &Sender<T>) -> bool {
    s.is_empty()
}

/// Relies on `Clone for flume::Sender`: another sender on the same channel.
#[verifier::external_body]
fn sender_clone<T>(s: &Sender<T>) -> Sender<T> {
    s.clone()
}

/// Relies on `flume::Receiver::try_recv`: a message if one is queued,
/// without waiting.
#[verifier::external_body]
fn receiver_try_recv<T>(r: &Receiver<T>) -> Option<T> {
    r.try_recv().ok()
}

/// Relies on `flume::Receiver::recv`: waits for a message; nothing when
/// every sender is gone and the channel is empty.
#[verifier::external_body]
fn receiver_recv<T>(r: &Receiver<T>) -> Option<T> {
    r.recv().ok()
}

/// Longest wait `ControlReceiver::recv_timeout` passes on, in seconds.
pub const MAX_WAIT_SECS: u64 = 4_294_967_295;

/// The whole seconds a receiver waits when asked to wait `secs` seconds:
/// `secs`, capped at `MAX_WAIT_SECS`.
pub fn wait_secs(secs: u64) -> (r: u64)
    ensures
        r == if secs > MAX_WAIT_SECS { MAX_WAIT_SECS } else { secs },
{
    if secs > MAX_WAIT_SECS {
        MAX_WAIT_SECS
    } else {
        secs
    }
}

/// Relies on `flume::Receiver::recv_timeout`: as `recv`, giving up after
/// `secs` seconds and `nanos` nanoseconds. It adds the wait to
/// `Instant::now()` and panics if that overflows; the monotonic clock counts
/// seconds in an `i64`, which a wait of at most `MAX_WAIT_SECS` cannot
/// overflow. `nanos` below one billion keeps `Duration::new` from carrying.
#[verifier::external_body]
fn receiver_recv_timeout<T>(r: &Receiver<T>, secs: u64, nanos: u32) -> Option<T>
    requires
        secs <= MAX_WAIT_SECS,
        nanos < 1_000_000_000,
{
    r.recv_timeout(Duration::new(secs, nanos)).ok()
}

/// Relies on `flume::Receiver::drain`: the messages queued at this moment.
#[verifier::external_body]
fn receiver_drain<T>(r: &Receiver<T>) -> Vec<T> {
    r.drain().collect()
}

/// Relies on `flume::Receiver::is_disconnected`.
#[verifier::external_body]
fn receiver_is_disconnected<T>(r: &Receiver<T>) -> bool {
    r.is_disconnected()
}

/// Relies on `flume::Receiver::len`.
#[verifier::external_body]
fn receiver_len<T>(r: &Receiver<T>) -> usize {
    r.len()
}

/// Relies on `flume::Receiver::is_empty`.
#[verifier::external_body]
fn receiver_is_empty<T>(r: &Receiver<T>) -> bool {
    r.is_empty()
}

/// The error a failed non-blocking send reports.
fn refusal_error(refusal: SendRefusal) -> (r: AudioEngineError)
    ensures
        (refusal is Full) ==> (r == (AudioEngineError::RingBufferFull { count: 1 })),
        (refusal is Disconnected) ==> (r == (AudioEngineError::ChannelSendFailed)),
{
    match refusal {
        SendRefusal::Full => AudioEngineError::RingBufferFull { count: 1 },
        SendRefusal::Disconnected => AudioEngineError::ChannelSendFailed,
    }
}

/// Creates a bounded channel for control messages: the sender for a
/// managing thread, the receiver for the real-time thread.
pub fn control_channel<T>(capacity: usize) -> (ControlSender<T>, RealtimeReceiver<T>) {
    let (tx, rx) = channel_bounded(capacity);
    (ControlSender { inner: tx }, RealtimeReceiver { inner: rx })
}

/// Creates a bounded channel for feedback: the sender for the real-time
/// thread, the receiver for a managing thread.
pub fn feedback_channel<T>(capacity: usize) -> (RealtimeSender<T>, ControlReceiver<T>) {
    let (tx, rx) = channel_bounded(capacity);
    (RealtimeSender { inner: tx }, ControlReceiver { inner: rx })
}

/// Sending end for control messages, held off the real-time thread; may
/// block.
#[verifier::reject_recursive_types(T)]
pub struct ControlSender<T> {
    inner: Sender<T>,
}

impl<T> ControlSender<T> {
    /// Sends a message, waiting while the channel is full; fails when the
    /// receiver is gone.
    pub fn send(&self, msg: T) -> (r: Result<(), AudioEngineError>)
        ensures
            r is Err ==> r == Err::<(), AudioEngineError>(AudioEngineError::ChannelSendFailed),
    {
        if sender_send(&self.inner, msg) {
            Ok(())
        } else {
            Err(AudioEngineError::ChannelSendFailed)
        }
    }

    /// Sends a message without waiting; fails on a full channel or a gone
    /// receiver.
    pub fn try_send(&self, msg: T) -> (r: Result<(), AudioEngineError>)
        ensures
            r is Err ==> r == Err::<(), AudioEngineError>(
                AudioEngineError::RingBufferFull { count: 1 },
            ) || r == Err::<(), AudioEngineError>(AudioEngineError::ChannelSendFailed),
    {
        match sender_try_send(&self.inner, msg) {
            Ok(()) => Ok(()),
            Err(refusal) => Err(refusal_error(refusal)),
        }
    }

    /// Returns true if the receiver has been dropped.
    pub fn is_disconnected(&self) -> bool {
        sender_is_disconnected(&self.inner)
    }

    /// Returns the number of messages in the channel.
    pub fn len(&self) -> usize {
        sender_len(&self.inner)
    }

    /// Returns true if the channel is empty.
    pub fn is_empty(&self) -> bool {
        sender_is_empty(&self.inner)
    }
}

impl<T> Clone for ControlSender<T> {
    /// Another sender feeding the same channel.
    fn clone(&self) -> Self {
        ControlSender { inner: sender_clone(&self.inner) }
    }
}

/// Receiving end for control messages, held by the real-time thread; it
/// never waits.
#[verifier::reject_recursive_types(T)]
pub struct RealtimeReceiver<T> {
    inner: Receiver<T>,
}

impl<T> RealtimeReceiver<T> {
    /// Takes a message if one is queued, without waiting.
    pub fn try_recv(&self) -> Option<T> {
        receiver_try_recv(&self.inner)
    }

    /// Takes every message queued at this moment. Allocates.
    pub fn drain(&self) -> Vec<T> {
        receiver_drain(&self.inner)
    }

    /// Returns true if every sender has been dropped.
    pub fn is_disconnected(&self) -> bool {
        receiver_is_disconnected(&self.inner)
    }

    /// Returns the number of messages in the channel.
    pub fn len(&self) -> usize {
        receiver_len(&self.inner)
    }

    /// Returns true if the channel is empty.
    pub fn is_empty(&self) -> bool {
        receiver_is_empty(&self.inner)
    }
}

impl<T: Send + 'static> RealtimeSafe for RealtimeReceiver<T> {}

impl<T> NonBlocking for RealtimeReceiver<T> {}

/// Sending end for feedback, held by the real-time thread; it never waits
/// and drops a message that finds the channel full.
#[verifier::reject_recursive_types(T)]
pub struct RealtimeSender<T> {
    inner: Sender<T>,
}

impl<T> RealtimeSender<T> {
    /// Sends without waiting; returns whether the message was delivered.
    pub fn try_send(&self, msg: T) -> bool {
        match sender_try_send(&self.inner, msg) {
            Ok(()) => true,
            Err(_) => false,
        }
    }

    /// Returns true if the receiver has been dropped.
    pub fn is_disconnected(&self) -> bool {
        sender_is_disconnected(&self.inner)
    }

    /// Returns the number of messages in the channel.
    pub fn len(&self) -> usize {
        sender_len(&self.inner)
    }

    /// Returns true if the channel is empty.
    pub fn is_empty(&self) -> bool {
        sender_is_empty(&self.inner)
    }
}

impl<T> Clone for RealtimeSender<T> {
    /// Another sender feeding the same channel.
    fn clone(&self) -> Self {
        RealtimeSender { inner: sender_clone(&self.inner) }
    }
}

impl<T: Send + 'static> RealtimeSafe for RealtimeSender<T> {}

impl<T> NonBlocking for RealtimeSender<T> {}

/// Receiving end for feedback, held off the real-time thread; may block.
#[verifier::reject_recursive_types(T)]
pub struct ControlReceiver<T> {
    inner: Receiver<T>,
}

impl<T> ControlReceiver<T> {
    /// Takes a message if one is queued, without waiting.
    pub fn try_recv(&self) -> Option<T> {
        receiver_try_recv(&self.inner)
    }

    /// Waits for a message; fails once every sender is gone and nothing is
    /// left.
    pub fn recv(&self) -> (r: Result<T, AudioEngineError>)
        ensures
            r is Err ==> r == Err::<T, AudioEngineError>(AudioEngineError::ChannelRecvFailed),
    {
        match receiver_recv(&self.inner) {
            Some(v) => Ok(v),
            None => Err(AudioEngineError::ChannelRecvFailed),
        }
    }

    /// Waits at most `timeout` for a message; a timeout longer than
    /// `MAX_WAIT_SECS` seconds (some 136 years) waits that long.
    pub fn recv_timeout(&self, timeout: Duration) -> (r: Result<T, AudioEngineError>)
        ensures
            r is Err ==> r == Err::<T, AudioEngineError>(AudioEngineError::ChannelRecvFailed),
    {
        let secs = wait_secs(duration_secs(&timeout));
        let nanos = duration_subsec_nanos(&timeout);
        match receiver_recv_timeout(&self.inner, secs, nanos) {
            Some(v) => Ok(v),
            None => Err(AudioEngineError::ChannelRecvFailed),
        }
    }

    /// Takes every message queued at this moment.
    pub fn drain(&self) -> Vec<T> {
        receiver_drain(&self.inner)
    }

    /// Returns true if every sender has been dropped.
    pub fn is_disconnected(&self) -> bool {
        receiver_is_disconnected(&self.inner)
    }

    /// Returns the number of messages in the channel.
    pub fn len(&self) -> usize {
        receiver_len(&self.inner)
    }

    /// Returns true if the channel is empty.
    pub fn is_empty(&self) -> bool {
        receiver_is_empty(&self.inner)
    }
}

/// State of the audio engine.
#[derive(Debug, Clone, Copy, PartialEq, Eq, Hash, Structural)]
pub enum EngineState {
    /// Not processing audio.
    Stopped,
    /// Processing audio.
    Running,
    /// Processing suspended, resumable.
    Paused,
    /// Stopped by an unrecoverable fault.
    Error,
}

impl RealtimeSafe for EngineState {}

} // verus!
