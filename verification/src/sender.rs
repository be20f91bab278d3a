//! The send side: what the sink worker does with each message pulled off
//! the dispatch queue, and the receipt a producer gets back from a send.
//!
//! The worker's loop itself (blocking on the queue, writing to the console
//! or file, sending the datagram) is the embedding's affair; the decisions
//! it acts on — filter by the threshold fixed at worker start, then render
//! for the sink — are here.

use vstd::prelude::*;

use crate::format::format_line;
use crate::format::spec_format_line;
use crate::protocol::encode_message_v1;
use crate::protocol::spec_wire_t1;
use crate::protocol::EncodeError;
use crate::protocol::Level;
use crate::protocol::Message;

verus! {

/// The delivery backend of a logger.
#[derive(PartialEq, Eq, Structural, Clone, Copy, Debug)]
pub enum SinkKind {
    /// One line per message on standard output, colour-escaped by level by
    /// the embedding.
    Console,
    /// One line per message in a text file.
    File,
    /// One encoded datagram per message over UDP.
    Network,
}

/// What the sink worker does with one message pulled off the queue.
#[derive(Debug)]
pub enum WorkerAction {
    /// The message's level is below the worker's threshold: dropped.
    Skip,
    /// Write this line of text, console or file sink.
    WriteLine(Vec<u8>),
    /// Send this encoded datagram, network sink.
    SendDatagram(Vec<u8>),
    /// The message cannot be encoded for the network; reported to the
    /// worker, never a panic.
    Reject(EncodeError),
}

/// Decide what the sink worker does with `message`: deliver it exactly
/// when its level is at least `threshold`, drop it otherwise; a delivered
/// message becomes the formatted line for the console and file sinks, and
/// the encoded version-1 datagram — or the encoder's error — for the
/// network sink.
pub fn worker_step(message: &Message, threshold: Level, sink: SinkKind) -> (r: WorkerAction)
    ensures
        r is Skip <==> !message@.level.spec_passes(threshold),
        message@.level.spec_passes(threshold) && sink != SinkKind::Network ==> (r matches
            WorkerAction::WriteLine(l) && l@ == spec_format_line(message@)),
        message@.level.spec_passes(threshold) && sink == SinkKind::Network && message@.value is None
            && message@.wf() ==> (r matches WorkerAction::SendDatagram(d) && d@ == spec_wire_t1(
            message@,
            1,
        )),
        message@.level.spec_passes(threshold) && sink == SinkKind::Network && message@.value is Some
            ==> (r matches WorkerAction::Reject(e) && e == EncodeError::UnsupportedPayload),
        message@.level.spec_passes(threshold) && sink == SinkKind::Network && message@.value is None
            && message@.file.len() > 0xFFFF ==> (r matches WorkerAction::Reject(e) && e
            == EncodeError::FileNameTooLong),
        message@.level.spec_passes(threshold) && sink == SinkKind::Network && message@.value is None
            && message@.file.len() <= 0xFFFF && message@.text.len() > 0xFFFF ==> (r matches
            WorkerAction::Reject(e) && e == EncodeError::TextTooLong),
{
    if !message.level.passes(threshold) {
        return WorkerAction::Skip;
    }
    match sink {
        SinkKind::Console => WorkerAction::WriteLine(format_line(message)),
        SinkKind::File => WorkerAction::WriteLine(format_line(message)),
        SinkKind::Network => match encode_message_v1(message) {
            Ok(d) => WorkerAction::SendDatagram(d),
            Err(e) => WorkerAction::Reject(e),
        },
    }
}

/// What a successful send reports back to the producer.
#[derive(PartialEq, Eq, Structural, Clone, Copy, Debug)]
pub struct SendReceipt {
    /// True exactly for a message of the highest severity: the caller is
    /// asked to halt after this message, in place of an unconditional
    /// in-library process exit.
    pub terminate_requested: bool,
}

/// Error for a send after the consuming worker has terminated: delivery is
/// unavailable, and the undelivered message is handed back to the caller
/// rather than panicking the sending thread.
#[derive(Debug)]
pub struct QueueClosed {
    /// The message that was not delivered.
    pub message: Message,
}

/// The receipt for a message accepted into the queue: a terminate request
/// exactly when the message has the highest severity.
pub fn send_receipt(level: Level) -> (r: SendReceipt)
    ensures
        r.terminate_requested <==> level == Level::Fatal,
{
    SendReceipt { terminate_requested: level == Level::Fatal }
}

} // verus!
