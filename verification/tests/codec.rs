use netlog::format::format_line;
use netlog::protocol::decode_message_v1;
use netlog::protocol::encode_message_v1;
use netlog::protocol::DecodeError;
use netlog::protocol::EncodeError;
use netlog::protocol::Level;
use netlog::protocol::Message;
use netlog::protocol::SupportedTypes;
use netlog::protocol::Timestamp;
use netlog::protocol::HEADER_LEN_V1;

fn sample_message() -> Message {
    Message {
        timestamp: Timestamp {
            year: 2024,
            month: 1,
            day: 1,
            hour: 0,
            minute: 0,
            second: 0,
            nanosecond: 0,
        },
        level: Level::Warning,
        text: b"disk nearly full".to_vec(),
        value: None,
        file: b"disk.rs".to_vec(),
        line: 42,
        sender: None,
    }
}

#[test]
fn header_len_is_twenty_two() {
    assert_eq!(HEADER_LEN_V1, 22);
}

#[test]
fn encode_layout_and_length() {
    let m = sample_message();
    let buf = encode_message_v1(&m).unwrap();
    assert_eq!(buf.len(), 22 + m.file.len() + 2 + m.text.len());
    assert_eq!(buf.len(), 47);
    assert_eq!(buf[0], 1); // protocol version
    assert_eq!(buf[1], 1); // message type T1
    assert_eq!(&buf[2..4], &[0, 1]); // message count
    assert_eq!(&buf[4..6], &[0x07, 0xE8]); // year 2024
    assert_eq!(&buf[6..11], &[1, 1, 0, 0, 0]); // month day hour minute second
    assert_eq!(buf[11], 2); // level Warning
    assert_eq!(&buf[12..16], &[0, 0, 0, 0]); // nanosecond
    assert_eq!(&buf[16..20], &[0, 0, 0, 42]); // line
    assert_eq!(&buf[20..22], &[0, 7]); // file name length
    assert_eq!(&buf[22..29], b"disk.rs");
    assert_eq!(&buf[29..31], &[0, 16]); // text length
    assert_eq!(&buf[31..47], b"disk nearly full");
}

#[test]
fn round_trip_keeps_every_field() {
    let m = sample_message();
    let buf = encode_message_v1(&m).unwrap();
    let back = decode_message_v1(&buf).unwrap();
    assert_eq!(back.level, m.level);
    assert_eq!(back.timestamp, m.timestamp);
    assert_eq!(back.text, m.text);
    assert_eq!(back.file, m.file);
    assert_eq!(back.line, m.line);
    assert!(back.value.is_none());
    assert!(back.sender.is_none());
}

#[test]
fn round_trip_keeps_subsecond_timestamp() {
    let mut m = sample_message();
    m.timestamp = Timestamp {
        year: 2031,
        month: 12,
        day: 31,
        hour: 23,
        minute: 59,
        second: 58,
        nanosecond: 999_999_999,
    };
    m.line = u32::MAX;
    let buf = encode_message_v1(&m).unwrap();
    let back = decode_message_v1(&buf).unwrap();
    assert_eq!(back.timestamp, m.timestamp);
    assert_eq!(back.line, m.line);
}

#[test]
fn round_trip_empty_text_and_file() {
    let mut m = sample_message();
    m.text = Vec::new();
    m.file = Vec::new();
    let buf = encode_message_v1(&m).unwrap();
    assert_eq!(buf.len(), 24);
    let back = decode_message_v1(&buf).unwrap();
    assert!(back.text.is_empty());
    assert!(back.file.is_empty());
}

#[test]
fn encode_rejects_typed_value_payload() {
    let mut m = sample_message();
    m.value = Some(SupportedTypes::U32(7));
    assert!(matches!(encode_message_v1(&m), Err(EncodeError::UnsupportedPayload)));
}

#[test]
fn encode_rejects_overlong_fields() {
    let mut m = sample_message();
    m.file = vec![b'a'; 0x10000];
    assert!(matches!(encode_message_v1(&m), Err(EncodeError::FileNameTooLong)));
    let mut m = sample_message();
    m.text = vec![b'a'; 0x10000];
    assert!(matches!(encode_message_v1(&m), Err(EncodeError::TextTooLong)));
    let mut m = sample_message();
    m.text = vec![b'a'; 0xFFFF];
    assert!(encode_message_v1(&m).is_ok());
}

#[test]
fn decode_rejects_short_datagram() {
    let buf = [1u8; 21];
    assert!(matches!(decode_message_v1(&buf), Err(DecodeError::TooShort)));
}

#[test]
fn decode_rejects_wrong_version() {
    let m = sample_message();
    let mut buf = encode_message_v1(&m).unwrap();
    buf[0] = 2;
    assert!(matches!(decode_message_v1(&buf), Err(DecodeError::UnsupportedVersion)));
    buf[0] = 0;
    assert!(matches!(decode_message_v1(&buf), Err(DecodeError::UnsupportedVersion)));
}

#[test]
fn decode_rejects_zero_count() {
    let m = sample_message();
    let mut buf = encode_message_v1(&m).unwrap();
    buf[2] = 0;
    buf[3] = 0;
    assert!(matches!(decode_message_v1(&buf), Err(DecodeError::InvalidCount)));
}

#[test]
fn decode_accepts_valid_level_rejects_invalid() {
    let m = sample_message();
    let mut buf = encode_message_v1(&m).unwrap();
    // every valid level byte decodes
    for b in 0u8..5u8 {
        buf[11] = b;
        let back = decode_message_v1(&buf).unwrap();
        assert_eq!(back.level, Level::from_u8(b).unwrap());
    }
    // every out-of-range byte is rejected
    buf[11] = 5;
    assert!(matches!(decode_message_v1(&buf), Err(DecodeError::InvalidLevel)));
    buf[11] = 255;
    assert!(matches!(decode_message_v1(&buf), Err(DecodeError::InvalidLevel)));
}

#[test]
fn decode_reports_t2_payload_as_unsupported() {
    let m = sample_message();
    let mut buf = encode_message_v1(&m).unwrap();
    buf[1] = 2;
    assert!(matches!(decode_message_v1(&buf), Err(DecodeError::UnsupportedPayload)));
}

#[test]
fn decode_rejects_unknown_payload_type() {
    let m = sample_message();
    let mut buf = encode_message_v1(&m).unwrap();
    buf[1] = 7;
    assert!(matches!(decode_message_v1(&buf), Err(DecodeError::UnknownPayload)));
    buf[1] = 0;
    assert!(matches!(decode_message_v1(&buf), Err(DecodeError::UnknownPayload)));
}

#[test]
fn decode_rejects_truncated_and_padded_datagrams() {
    let m = sample_message();
    let buf = encode_message_v1(&m).unwrap();
    // cut inside the text
    assert!(matches!(
        decode_message_v1(&buf[..buf.len() - 1]),
        Err(DecodeError::Truncated)
    ));
    // cut inside the file name
    assert!(matches!(decode_message_v1(&buf[..23]), Err(DecodeError::Truncated)));
    // a file length that runs past the datagram
    let mut long = buf.clone();
    long[20] = 0xFF;
    long[21] = 0xFF;
    assert!(matches!(decode_message_v1(&long), Err(DecodeError::Truncated)));
    // trailing garbage after the announced payload
    let mut padded = buf.clone();
    padded.push(0);
    assert!(matches!(decode_message_v1(&padded), Err(DecodeError::TrailingBytes)));
}

#[test]
fn levels_map_to_wire_bytes_and_back() {
    let all = [
        Level::Trace,
        Level::Information,
        Level::Warning,
        Level::Error,
        Level::Fatal,
    ];
    for (i, l) in all.iter().enumerate() {
        assert_eq!(l.as_u8(), i as u8);
        assert_eq!(Level::from_u8(i as u8), Some(*l));
    }
    assert_eq!(Level::from_u8(5), None);
}

#[test]
fn formatted_line_is_exact() {
    let m = sample_message();
    let line = format_line(&m);
    assert_eq!(
        String::from_utf8(line).unwrap(),
        "[2] - 2024-01-01 00:00:00.000000000 (disk.rs(42)) disk nearly full"
    );
}

#[test]
fn formatted_line_pads_and_grows_numbers() {
    let mut m = sample_message();
    m.level = Level::Fatal;
    m.timestamp = Timestamp {
        year: 987,
        month: 11,
        day: 3,
        hour: 9,
        minute: 10,
        second: 5,
        nanosecond: 42,
    };
    m.line = 1_000_000;
    m.file = b"a.rs".to_vec();
    m.text = b"x".to_vec();
    let line = format_line(&m);
    assert_eq!(
        String::from_utf8(line).unwrap(),
        "[4] - 0987-11-03 09:10:05.000000042 (a.rs(1000000)) x"
    );
}
