use std::time::Duration;

use netlog::protocol::EncodeError;
use netlog::protocol::Level;
use netlog::protocol::Message;
use netlog::protocol::SupportedTypes;
use netlog::protocol::Timestamp;
use netlog::queue::DispatchQueue;
use netlog::receiver::process_datagram;
use netlog::receiver::Logger;
use netlog::receiver::ReceiveError;
use netlog::receiver::MESSAGE_BUFFER_SIZE;
use netlog::sender::send_receipt;
use netlog::sender::worker_step;
use netlog::sender::SinkKind;
use netlog::sender::WorkerAction;

fn message_with(level: Level, text: &str) -> Message {
    Message {
        timestamp: Timestamp {
            year: 2024,
            month: 6,
            day: 15,
            hour: 12,
            minute: 30,
            second: 45,
            nanosecond: 123_456_789,
        },
        level,
        text: text.as_bytes().to_vec(),
        value: None,
        file: b"main.rs".to_vec(),
        line: 7,
        sender: None,
    }
}

const ALL_LEVELS: [Level; 5] = [
    Level::Trace,
    Level::Information,
    Level::Warning,
    Level::Error,
    Level::Fatal,
];

#[test]
fn filter_delivers_at_or_above_threshold_for_all_pairs() {
    for threshold in ALL_LEVELS {
        for level in ALL_LEVELS {
            let m = message_with(level, "hello");
            let delivered = !matches!(
                worker_step(&m, threshold, SinkKind::Console),
                WorkerAction::Skip
            );
            assert_eq!(delivered, level.as_u8() >= threshold.as_u8());
            assert_eq!(level.passes(threshold), delivered);
        }
    }
}

#[test]
fn worker_renders_one_line_for_console_and_file() {
    let m = message_with(Level::Error, "boom");
    for sink in [SinkKind::Console, SinkKind::File] {
        match worker_step(&m, Level::Trace, sink) {
            WorkerAction::WriteLine(line) => {
                assert_eq!(
                    String::from_utf8(line).unwrap(),
                    "[3] - 2024-06-15 12:30:45.123456789 (main.rs(7)) boom"
                );
            }
            _ => panic!("console and file sinks must render a line"),
        }
    }
}

#[test]
fn worker_encodes_datagram_for_network_sink() {
    let m = message_with(Level::Error, "boom");
    match worker_step(&m, Level::Trace, SinkKind::Network) {
        WorkerAction::SendDatagram(d) => {
            assert_eq!(d.len(), 22 + 7 + 2 + 4);
            assert_eq!(d[0], 1);
            assert_eq!(d[11], 3);
        }
        _ => panic!("network sink must encode the message"),
    }
}

#[test]
fn t2_message_on_network_sink_is_a_structured_error() {
    let mut m = message_with(Level::Error, "boom");
    m.value = Some(SupportedTypes::F64(1.5f64.to_bits()));
    match worker_step(&m, Level::Trace, SinkKind::Network) {
        WorkerAction::Reject(e) => assert_eq!(e, EncodeError::UnsupportedPayload),
        _ => panic!("a typed value must be rejected, not delivered or a panic"),
    }
}

#[test]
fn fatal_send_requests_termination() {
    assert!(send_receipt(Level::Fatal).terminate_requested);
    for level in [Level::Trace, Level::Information, Level::Warning, Level::Error] {
        assert!(!send_receipt(level).terminate_requested);
    }
}

#[test]
fn queue_is_fifo() {
    let mut q = DispatchQueue::new(16);
    for i in 0..10u32 {
        let mut m = message_with(Level::Information, "ordered");
        m.line = i;
        assert!(q.enqueue(m).is_ok());
    }
    for i in 0..10u32 {
        let m = q.dequeue().expect("queue should still hold messages");
        assert_eq!(m.line, i);
    }
    assert!(q.dequeue().is_none());
}

#[test]
fn full_queue_signals_would_block_and_one_drain_frees_one_slot() {
    let capacity: usize = 4;
    let mut q = DispatchQueue::new(capacity);
    for i in 0..capacity {
        let mut m = message_with(Level::Information, "fill");
        m.line = i as u32;
        assert!(q.enqueue(m).is_ok());
    }
    assert!(q.is_full());
    // the (N+1)-th message is not accepted: the producer would block
    let mut extra = message_with(Level::Information, "extra");
    extra.line = 99;
    let back = match q.enqueue(extra) {
        Err(back) => back,
        Ok(()) => panic!("a full queue must not accept a message"),
    };
    assert_eq!(back.line, 99);
    assert_eq!(q.len(), capacity);
    // draining one message unblocks exactly one enqueue
    let head = q.dequeue().unwrap();
    assert_eq!(head.line, 0);
    assert!(q.enqueue(back).is_ok());
    assert!(q.is_full());
}

#[test]
fn queue_capacity_and_emptiness_are_observable() {
    let q = DispatchQueue::new(MESSAGE_BUFFER_SIZE);
    assert_eq!(q.capacity(), 1024);
    assert!(q.is_empty());
    assert_eq!(q.len(), 0);
}

fn encoded(level: Level, text: &str) -> Vec<u8> {
    netlog::protocol::encode_message_v1(&message_with(level, text)).unwrap()
}

#[test]
fn receiver_drops_foreign_version_without_forwarding() {
    let mut datagram = encoded(Level::Fatal, "attack at dawn");
    datagram[0] = 3;
    let r = process_datagram(&datagram, Level::Trace, "10.0.0.1:9000".to_string());
    assert!(r.is_none());
}

#[test]
fn receiver_forwards_decoded_message_with_sender() {
    let datagram = encoded(Level::Warning, "low battery");
    let m = process_datagram(&datagram, Level::Trace, "10.0.0.1:9000".to_string())
        .expect("a valid datagram at or above the threshold is forwarded");
    assert_eq!(m.level, Level::Warning);
    assert_eq!(m.text, b"low battery".to_vec());
    assert_eq!(m.sender.as_deref(), Some("10.0.0.1:9000"));
}

#[test]
fn receiver_refilters_by_its_own_threshold() {
    let datagram = encoded(Level::Information, "chatter");
    assert!(process_datagram(&datagram, Level::Warning, "a:1".to_string()).is_none());
    assert!(process_datagram(&datagram, Level::Information, "a:1".to_string()).is_some());
}

#[test]
fn receiver_drops_malformed_noise() {
    assert!(process_datagram(&[], Level::Trace, "a:1".to_string()).is_none());
    assert!(process_datagram(&[0xFF; 40], Level::Trace, "a:1".to_string()).is_none());
}

#[test]
fn logger_hands_out_queued_messages_in_order() {
    let (tx, rx) = crossbeam::channel::bounded::<Message>(MESSAGE_BUFFER_SIZE);
    let logger = Logger::new(Level::Information, rx);
    assert_eq!(logger.level(), Level::Information);
    for i in 0..3u32 {
        let mut m = message_with(Level::Warning, "queued");
        m.line = i;
        tx.send(m).unwrap();
    }
    for i in 0..3u32 {
        let m = logger.next_message(None).unwrap();
        assert_eq!(m.line, i);
    }
}

#[test]
fn logger_times_out_only_when_a_timeout_was_given() {
    let (tx, rx) = crossbeam::channel::bounded::<Message>(4);
    let logger = Logger::new(Level::Trace, rx);
    let r = logger.next_message(Some(Duration::from_millis(20)));
    assert!(matches!(r, Err(ReceiveError::Timeout)));
    drop(tx);
    let r = logger.next_message(Some(Duration::from_millis(20)));
    assert!(matches!(r, Err(ReceiveError::Disconnected)));
}

#[test]
fn logger_reports_source_gone_when_disconnected() {
    let (tx, rx) = crossbeam::channel::bounded::<Message>(4);
    let logger = Logger::new(Level::Trace, rx);
    tx.send(message_with(Level::Error, "last words")).unwrap();
    drop(tx);
    assert!(logger.next_message(None).is_ok());
    assert!(matches!(
        logger.next_message(None),
        Err(ReceiveError::Disconnected)
    ));
}
