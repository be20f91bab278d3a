//! Receiving log messages from the network. Datagrams are decoded and
//! level-filtered by [`process_datagram`]; accepted messages travel
//! through a bounded queue that the application drains with
//! [`Logger::next_message`].
//!
//! The embedding owns the socket and the polling thread: it reads each
//! datagram, hands the bytes to [`process_datagram`], and pushes what
//! comes back into the producer side of the queue.

use vstd::prelude::*;

use crate::protocol::spec_decode_v1;
use crate::protocol::decode_message_v1;
use crate::protocol::Level;
use crate::protocol::Message;
use crate::protocol::MessageV;

verus! {

/// Capacity of the queue between the polling thread and the application.
pub const MESSAGE_BUFFER_SIZE: usize = 1024;

/// Failures of [`Logger::next_message`].
#[derive(PartialEq, Eq, Structural, Clone, Copy, Debug)]
pub enum ReceiveError {
    /// No message arrived within the given timeout.
    Timeout,
    /// The polling thread is gone and the queue is drained: the source of
    /// messages is gone.
    Disconnected,
}

/// Queue receiver handle of the crossbeam channel crate: the consumer side
/// that [`Logger`] drains.
#[verifier::external_type_specification]
#[verifier::external_body]
#[verifier::reject_recursive_types(T)]
pub struct ExReceiver<T>(crossbeam::channel::Receiver<T>);

/// Relies on crossbeam's `Receiver::recv`: it blocks until a message
/// arrives and fails exactly when the channel is empty and disconnected.
/// Nothing is promised of the message itself; what arrives depends on the
/// sending thread.
#[verifier::external_body]
fn recv_blocking(channel: &crossbeam::channel::Receiver<Message>) -> (r: Result<
    Message,
    ReceiveError,
>)
    ensures
        r matches Err(e) ==> e == ReceiveError::Disconnected,
{
    match channel.recv() {
        Ok(m) => Ok(m),
        Err(_) => Err(ReceiveError::Disconnected),
    }
}

/// Relies on crossbeam's `Receiver::recv_timeout`: it blocks until a
/// message arrives, the timeout passes, or the channel is empty and
/// disconnected. Nothing is promised of the message itself; what arrives
/// depends on the sending thread.
#[verifier::external_body]
fn recv_with_timeout(
    channel: &crossbeam::channel::Receiver<Message>,
    timeout: core::time::Duration,
) -> (r: Result<Message, ReceiveError>) {
    match channel.recv_timeout(timeout) {
        Ok(m) => Ok(m),
        Err(crossbeam::channel::RecvTimeoutError::Timeout) => Err(ReceiveError::Timeout),
        Err(crossbeam::channel::RecvTimeoutError::Disconnected) => Err(ReceiveError::Disconnected),
    }
}

/// True when the receive path forwards a datagram with these bytes to the
/// application: it decodes as a version-1 packet and its level passes the
/// threshold. Everything else is dropped as expected background noise.
pub open spec fn spec_accepts(b: Seq<u8>, threshold: Level) -> bool {
    &&& spec_decode_v1(b) matches Ok(mv)
    &&& spec_decode_v1(b)->Ok_0.level.spec_passes(threshold)
}

/// Decode one inbound datagram and filter it: the reconstructed message,
/// stamped with the sender's address, exactly when the bytes decode and
/// the level passes the threshold; `None` — dropped, never an error — for
/// anything else.
pub fn process_datagram(buffer: &[u8], threshold: Level, sender: String) -> (r: Option<Message>)
    ensures
        (r is Some <==> spec_accepts(buffer@, threshold)),
        r matches Some(m) ==> m@ == (MessageV {
            sender: Some(sender@),
            ..spec_decode_v1(buffer@)->Ok_0
        }),
{
    match decode_message_v1(buffer) {
        Ok(mut m) => {
            if m.level.passes(threshold) {
                m.sender = Some(sender);
                Some(m)
            } else {
                None
            }
        },
        Err(_) => None,
    }
}

/// A datagram that does not announce protocol version 1 is never
/// forwarded, whatever the threshold: the decoder rejects it and the
/// polling thread drops it without crashing.
pub proof fn lemma_foreign_version_dropped(b: Seq<u8>, threshold: Level)
    requires
        b.len() < 22 || b[0] != 1,
    ensures
        !spec_accepts(b, threshold),
{
}

/// Contains the state of a logger that receives messages from the network.
pub struct Logger {
    level: Level,
    /// Consumer side of the queue the polling thread fills.
    pub channel: crossbeam::channel::Receiver<Message>,
}

impl Logger {
    /// The filtering threshold, fixed at construction.
    pub closed spec fn spec_level(&self) -> Level {
        self.level
    }

    /// Get the current logging level.
    pub fn level(&self) -> (r: Level)
        ensures
            r == self.spec_level(),
    {
        self.level
    }

    /// Create a logger that hands out the messages received on `channel`.
    /// The embedding binds the socket and spawns the polling thread, which
    /// filters each datagram with [`process_datagram`] against this same
    /// level and fills the producer side of `channel`.
    pub fn new(level: Level, channel: crossbeam::channel::Receiver<Message>) -> (r: Logger)
        ensures
            r.spec_level() == level,
    {
        Logger { level, channel }
    }

    /// Get the next message in the received queue, up to an optional
    /// timeout. Without a timeout the call blocks indefinitely, so a
    /// timeout error implies a timeout was given; a disconnected queue is
    /// the distinct "source gone" error.
    pub fn next_message(&self, timeout: Option<core::time::Duration>) -> (r: Result<
        Message,
        ReceiveError,
    >)
        ensures
            (r matches Err(e) && e == ReceiveError::Timeout) ==> timeout is Some,
    {
        match timeout {
            Some(x) => recv_with_timeout(&self.channel, x),
            None => recv_blocking(&self.channel),
        }
    }
}

} // verus!
