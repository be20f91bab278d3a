//! The wire protocol used for network logging: the message model and the
//! version-1 codec (header layout, field encoding, decode validation).
//!
//! Byte layout of a version-1 packet carrying one pre-formatted text (T1)
//! payload, all multi-byte integers big-endian:
//!
//! | offset            | field            | size          |
//! |-------------------|------------------|---------------|
//! | 0                 | protocol_version | 1 (must be 1) |
//! | 1                 | message_type     | 1             |
//! | 2                 | message_count    | 2 (must be >= 1) |
//! | 4                 | year             | 2             |
//! | 6                 | month            | 1             |
//! | 7                 | day              | 1             |
//! | 8                 | hour             | 1             |
//! | 9                 | minute           | 1             |
//! | 10                | second           | 1             |
//! | 11                | level            | 1 (must be 0..=4) |
//! | 12                | nanosecond       | 4             |
//! | 16                | line             | 4             |
//! | 20                | file_name_len    | 2             |
//! | 22                | file name        | file_name_len |
//! | 22+file_name_len  | text_length      | 2             |
//! | 24+file_name_len  | text             | text_length   |

use vstd::prelude::*;

verus! {

/// Available log levels, in increasing priority.
#[derive(PartialEq, Eq, Structural, PartialOrd, Ord, Clone, Copy, Debug)]
pub enum Level {
    /// Log all messages with Trace priority or higher.
    Trace,
    /// Log all messages with Information priority or higher.
    Information,
    /// Log all messages with Warning priority or higher.
    Warning,
    /// Log all messages with Error priority or higher.
    Error,
    /// Log all messages with Fatal priority or higher.
    Fatal,
}

impl Level {
    /// Numeric rank of the level, as carried in the wire header.
    pub open spec fn value(self) -> u8 {
        match self {
            Level::Trace => 0,
            Level::Information => 1,
            Level::Warning => 2,
            Level::Error => 3,
            Level::Fatal => 4,
        }
    }

    /// Numeric rank of the level, as carried in the wire header.
    pub fn as_u8(&self) -> (r: u8)
        ensures
            r == self.value(),
    {
        match self {
            Level::Trace => 0,
            Level::Information => 1,
            Level::Warning => 2,
            Level::Error => 3,
            Level::Fatal => 4,
        }
    }

    /// The level whose numeric rank is `b`, if any.
    pub open spec fn spec_from_u8(b: u8) -> Option<Level> {
        if b == 0 {
            Some(Level::Trace)
        } else if b == 1 {
            Some(Level::Information)
        } else if b == 2 {
            Some(Level::Warning)
        } else if b == 3 {
            Some(Level::Error)
        } else if b == 4 {
            Some(Level::Fatal)
        } else {
            None
        }
    }

    /// Parse a level byte; `None` exactly when the byte maps to no level.
    pub fn from_u8(b: u8) -> (r: Option<Level>)
        ensures
            r == Level::spec_from_u8(b),
            r matches Some(l) ==> l.value() == b,
            r is None <==> b > 4,
    {
        match b {
            0 => Some(Level::Trace),
            1 => Some(Level::Information),
            2 => Some(Level::Warning),
            3 => Some(Level::Error),
            4 => Some(Level::Fatal),
            _ => None,
        }
    }

    /// True when a message of this level passes a filter with the given
    /// threshold.
    pub open spec fn spec_passes(self, threshold: Level) -> bool {
        self.value() >= threshold.value()
    }

    /// True when a message of this level passes a filter with the given
    /// threshold: delivered when `self >= threshold`, dropped otherwise.
    pub fn passes(&self, threshold: Level) -> (r: bool)
        ensures
            r == self.spec_passes(threshold),
    {
        self.as_u8() >= threshold.as_u8()
    }
}

/// Supported variable types for a T2 message. The two floating-point cases
/// carry the raw bits of the IEEE-754 value, so that the payload is a plain
/// integer at this layer; the embedding converts to and from `f32`/`f64`.
#[derive(PartialEq, Eq, Structural, Clone, Copy, Debug)]
pub enum SupportedTypes {
    U8(u8),
    U16(u16),
    U32(u32),
    U64(u64),
    I8(i8),
    I16(i16),
    I32(i32),
    I64(i64),
    /// Bits of an `f32` value.
    F32(u32),
    /// Bits of an `f64` value.
    F64(u64),
}

/// Calendar timestamp with the exact precision the wire format carries:
/// year, month, day, hour, minute, second and nanosecond.
#[derive(PartialEq, Eq, Structural, Clone, Copy, Debug)]
pub struct Timestamp {
    pub year: u16,
    pub month: u8,
    pub day: u8,
    pub hour: u8,
    pub minute: u8,
    pub second: u8,
    pub nanosecond: u32,
}

/// Structure that holds all information for a single log message.
///
/// `text` and `file` are UTF-8 encoded bytes; the wire format and the
/// length invariant both speak of byte lengths, so the byte form is what
/// this layer works on.
#[derive(Debug, Clone)]
pub struct Message {
    /// Raw timestamp value.
    pub timestamp: Timestamp,
    /// Priority of the message.
    pub level: Level,
    /// Formatted text associated with the message, as UTF-8 bytes.
    pub text: Vec<u8>,
    /// Optional value associated with the message.
    pub value: Option<SupportedTypes>,
    /// File where the message originated, as UTF-8 bytes.
    pub file: Vec<u8>,
    /// Line where the message originated.
    pub line: u32,
    /// Sender of the message, only used when receiving the message from the
    /// network.
    pub sender: Option<String>,
}

/// Mathematical model of a [`Message`].
#[verifier::ext_equal]
pub struct MessageV {
    pub timestamp: Timestamp,
    pub level: Level,
    pub text: Seq<u8>,
    pub value: Option<SupportedTypes>,
    pub file: Seq<u8>,
    pub line: u32,
    pub sender: Option<Seq<char>>,
}

impl View for Message {
    type V = MessageV;

    open spec fn view(&self) -> MessageV {
        MessageV {
            timestamp: self.timestamp,
            level: self.level,
            text: self.text@,
            value: self.value,
            file: self.file@,
            line: self.line,
            sender: match self.sender {
                Some(s) => Some(s@),
                None => None,
            },
        }
    }
}

impl MessageV {
    /// Both variable-length fields fit the 16-bit length prefixes of the
    /// wire format.
    pub open spec fn wf(self) -> bool {
        self.text.len() <= 0xFFFF && self.file.len() <= 0xFFFF
    }
}

impl Message {
    /// Both variable-length fields fit the 16-bit length prefixes of the
    /// wire format.
    pub open spec fn wf(&self) -> bool {
        self@.wf()
    }
}

/// Size of the protocol header (version 1) without the file name.
pub const HEADER_LEN_V1: usize = 22;

/// Big-endian bytes of a 16-bit integer.
pub open spec fn be16(x: u16) -> Seq<u8> {
    seq![(x / 0x100) as u8, (x % 0x100) as u8]
}

/// 16-bit integer read from two big-endian bytes.
pub open spec fn be16_val(b0: u8, b1: u8) -> u16 {
    (b0 as u16 * 0x100 + b1 as u16) as u16
}

/// Big-endian bytes of a 32-bit integer.
pub open spec fn be32(x: u32) -> Seq<u8> {
    be16((x / 0x10000) as u16) + be16((x % 0x10000) as u16)
}

/// 32-bit integer read from four big-endian bytes.
pub open spec fn be32_val(b0: u8, b1: u8, b2: u8, b3: u8) -> u32 {
    (be16_val(b0, b1) as u32 * 0x10000 + be16_val(b2, b3) as u32) as u32
}

/// Reading back the big-endian bytes of a 16-bit integer yields it again.
pub proof fn lemma_be16_roundtrip(x: u16)
    ensures
        be16_val(be16(x)[0], be16(x)[1]) == x,
{
    vstd::arithmetic::div_mod::lemma_fundamental_div_mod(x as int, 0x100);
}

/// Reading back the big-endian bytes of a 32-bit integer yields it again.
pub proof fn lemma_be32_roundtrip(x: u32)
    ensures
        be32_val(be32(x)[0], be32(x)[1], be32(x)[2], be32(x)[3]) == x,
{
    let hi = (x / 0x10000) as u16;
    let lo = (x % 0x10000) as u16;
    lemma_be16_roundtrip(hi);
    lemma_be16_roundtrip(lo);
    vstd::arithmetic::div_mod::lemma_fundamental_div_mod(x as int, 0x10000);
}

/// The 22 fixed header bytes of a version-1 packet, followed by the file
/// name bytes.
pub open spec fn spec_header_v1(m: MessageV, message_type: u8, count: u16) -> Seq<u8>
    recommends
        m.file.len() <= 0xFFFF,
{
    seq![1u8, message_type] + be16(count) + be16(m.timestamp.year)
        + seq![
        m.timestamp.month,
        m.timestamp.day,
        m.timestamp.hour,
        m.timestamp.minute,
        m.timestamp.second,
        m.level.value(),
    ] + be32(m.timestamp.nanosecond) + be32(m.line) + be16(m.file.len() as u16) + m.file
}

/// A whole version-1 packet with a single T1 (pre-formatted text) payload:
/// header, file name, then the 16-bit text length and the text bytes.
pub open spec fn spec_wire_t1(m: MessageV, count: u16) -> Seq<u8>
    recommends
        m.wf(),
{
    spec_header_v1(m, 1, count) + be16(m.text.len() as u16) + m.text
}

/// Failures of the encoder, each reported to the caller rather than
/// panicking.
#[derive(PartialEq, Eq, Structural, Clone, Copy, Debug)]
pub enum EncodeError {
    /// The message carries a typed value (a T2 payload), which the codec
    /// does not support yet.
    UnsupportedPayload,
    /// The file name is longer than its 16-bit length prefix can carry.
    FileNameTooLong,
    /// The text is longer than its 16-bit length prefix can carry.
    TextTooLong,
}

/// Append the two big-endian bytes of `x`.
fn push_be16(buf: &mut Vec<u8>, x: u16)
    ensures
        final(buf)@ == old(buf)@ + be16(x),
{
    buf.push((x / 0x100) as u8);
    buf.push((x % 0x100) as u8);
    assert(buf@ =~= old(buf)@ + be16(x));
}

/// Append the four big-endian bytes of `x`.
fn push_be32(buf: &mut Vec<u8>, x: u32)
    ensures
        final(buf)@ == old(buf)@ + be32(x),
{
    assert(x / 0x10000 <= 0xFFFF && x % 0x10000 <= 0xFFFF);
    push_be16(buf, (x / 0x10000) as u16);
    push_be16(buf, (x % 0x10000) as u16);
    assert(buf@ =~= old(buf)@ + be32(x));
}

/// Append a copy of all of `src`.
fn push_bytes(buf: &mut Vec<u8>, src: &Vec<u8>)
    ensures
        final(buf)@ == old(buf)@ + src@,
{
    let mut i: usize = 0;
    while i < src.len()
        invariant
            i <= src.len(),
            buf@ == old(buf)@ + src@.subrange(0, i as int),
        decreases src.len() - i,
    {
        buf.push(src[i]);
        i = i + 1;
        assert(buf@ =~= old(buf)@ + src@.subrange(0, i as int));
    }
    assert(buf@ =~= old(buf)@ + src@);
}

/// Encode a log message as a version-1 packet with a single T1 payload.
///
/// Succeeds exactly when the message carries no typed value and both
/// variable-length fields fit their 16-bit length prefixes; the resulting
/// buffer is `22 + file.len() + 2 + text.len()` bytes laid out as
/// [`spec_wire_t1`] says. A typed value is an unsupported (T2) payload and
/// is rejected, never a panic.
pub fn encode_message_v1(message: &Message) -> (r: Result<Vec<u8>, EncodeError>)
    ensures
        r matches Ok(buf) ==> message@.value is None && message@.wf() && buf@ == spec_wire_t1(
            message@,
            1,
        ),
        r matches Ok(buf) ==> buf@.len() == HEADER_LEN_V1 + message@.file.len() + 2
            + message@.text.len(),
        message@.value is Some ==> (r matches Err(e) && e == EncodeError::UnsupportedPayload),
        message@.value is None && message@.file.len() > 0xFFFF ==> (r matches Err(e) && e
            == EncodeError::FileNameTooLong),
        message@.value is None && message@.file.len() <= 0xFFFF && message@.text.len() > 0xFFFF
            ==> (r matches Err(e) && e == EncodeError::TextTooLong),
        message@.value is None && message@.wf() ==> r is Ok,
{
    if message.value.is_some() {
        return Err(EncodeError::UnsupportedPayload);
    }
    if message.file.len() > 0xFFFF {
        return Err(EncodeError::FileNameTooLong);
    }
    if message.text.len() > 0xFFFF {
        return Err(EncodeError::TextTooLong);
    }
    let mut buf: Vec<u8> = Vec::new();
    buf.push(1u8);
    buf.push(1u8);
    push_be16(&mut buf, 1);
    push_be16(&mut buf, message.timestamp.year);
    buf.push(message.timestamp.month);
    buf.push(message.timestamp.day);
    buf.push(message.timestamp.hour);
    buf.push(message.timestamp.minute);
    buf.push(message.timestamp.second);
    buf.push(message.level.as_u8());
    push_be32(&mut buf, message.timestamp.nanosecond);
    push_be32(&mut buf, message.line);
    push_be16(&mut buf, message.file.len() as u16);
    push_bytes(&mut buf, &message.file);
    assert(buf@ =~= spec_header_v1(message@, 1, 1));
    push_be16(&mut buf, message.text.len() as u16);
    push_bytes(&mut buf, &message.text);
    assert(buf@ =~= spec_wire_t1(message@, 1));
    Ok(buf)
}

/// Failures of the decoder, one for each validation the receiver makes.
#[derive(PartialEq, Eq, Structural, Clone, Copy, Debug)]
pub enum DecodeError {
    /// The datagram is shorter than the fixed header.
    TooShort,
    /// The version byte is not 1.
    UnsupportedVersion,
    /// The message count is zero.
    InvalidCount,
    /// The level byte maps to no severity.
    InvalidLevel,
    /// The payload is a typed value (T2), which the codec does not support
    /// yet.
    UnsupportedPayload,
    /// The payload type byte names no known payload kind.
    UnknownPayload,
    /// The datagram ends before the variable-length fields it announces.
    Truncated,
    /// The datagram carries bytes past the end of the announced payload.
    TrailingBytes,
}

/// What decoding a version-1 packet yields: the reconstructed message, or
/// the first validation that fails. Validation order: overall length, then
/// version, count and level, then payload type, then the two
/// length-prefixed fields, whose announced lengths must add up to exactly
/// the datagram length.
pub open spec fn spec_decode_v1(b: Seq<u8>) -> Result<MessageV, DecodeError> {
    if b.len() < HEADER_LEN_V1 {
        Err(DecodeError::TooShort)
    } else if b[0] != 1 {
        Err(DecodeError::UnsupportedVersion)
    } else if be16_val(b[2], b[3]) == 0 {
        Err(DecodeError::InvalidCount)
    } else if Level::spec_from_u8(b[11]) is None {
        Err(DecodeError::InvalidLevel)
    } else if b[1] == 2 {
        Err(DecodeError::UnsupportedPayload)
    } else if b[1] != 1 {
        Err(DecodeError::UnknownPayload)
    } else {
        let file_len = be16_val(b[20], b[21]) as int;
        if b.len() < HEADER_LEN_V1 + file_len + 2 {
            Err(DecodeError::Truncated)
        } else {
            let text_len = be16_val(b[22 + file_len], b[23 + file_len]) as int;
            if b.len() < 24 + file_len + text_len {
                Err(DecodeError::Truncated)
            } else if b.len() > 24 + file_len + text_len {
                Err(DecodeError::TrailingBytes)
            } else {
                Ok(
                    MessageV {
                        timestamp: Timestamp {
                            year: be16_val(b[4], b[5]),
                            month: b[6],
                            day: b[7],
                            hour: b[8],
                            minute: b[9],
                            second: b[10],
                            nanosecond: be32_val(b[12], b[13], b[14], b[15]),
                        },
                        level: match Level::spec_from_u8(b[11]) {
                            Some(l) => l,
                            None => Level::Trace,
                        },
                        text: b.subrange(24 + file_len, 24 + file_len + text_len),
                        value: None,
                        file: b.subrange(22, 22 + file_len),
                        line: be32_val(b[16], b[17], b[18], b[19]),
                        sender: None,
                    },
                )
            }
        }
    }
}

/// Read a big-endian 16-bit integer at byte offset `at`.
fn read_be16(buffer: &[u8], at: usize) -> (r: u16)
    requires
        at + 2 <= buffer@.len(),
    ensures
        r == be16_val(buffer@[at as int], buffer@[at as int + 1]),
{
    (buffer[at] as u16) * 0x100 + (buffer[at + 1] as u16)
}

/// Read a big-endian 32-bit integer at byte offset `at`.
fn read_be32(buffer: &[u8], at: usize) -> (r: u32)
    requires
        at + 4 <= buffer@.len(),
    ensures
        r == be32_val(
            buffer@[at as int],
            buffer@[at as int + 1],
            buffer@[at as int + 2],
            buffer@[at as int + 3],
        ),
{
    let n = buffer.len();
    assert(at + 2 <= n);
    (read_be16(buffer, at) as u32) * 0x10000 + (read_be16(buffer, at + 2) as u32)
}

/// Copy the bytes of `buffer[start..end]` into a fresh vector.
fn copy_range(buffer: &[u8], start: usize, end: usize) -> (r: Vec<u8>)
    requires
        start <= end <= buffer@.len(),
    ensures
        r@ == buffer@.subrange(start as int, end as int),
{
    let mut r: Vec<u8> = Vec::new();
    let mut i: usize = start;
    while i < end
        invariant
            start <= i <= end <= buffer@.len(),
            r@ == buffer@.subrange(start as int, i as int),
        decreases end - i,
    {
        r.push(buffer[i]);
        i = i + 1;
        assert(r@ =~= buffer@.subrange(start as int, i as int));
    }
    r
}

/// Decode a version-1 packet into a log message.
///
/// Returns exactly what [`spec_decode_v1`] says of the bytes: the message
/// with every field the datagram carried (`value` and `sender` empty), or
/// the first failing validation. In particular a wrong protocol version, a
/// zero message count and an out-of-range level byte are all rejected, and
/// a T2 payload is reported as unsupported rather than a crash.
pub fn decode_message_v1(buffer: &[u8]) -> (r: Result<Message, DecodeError>)
    ensures
        r matches Ok(m) ==> (spec_decode_v1(buffer@) matches Ok(mv) && m@ == mv),
        r matches Err(e) ==> (spec_decode_v1(buffer@) matches Err(e2) && e == e2),
        r is Ok <==> spec_decode_v1(buffer@) is Ok,
{
    let n = buffer.len();
    if n < HEADER_LEN_V1 {
        return Err(DecodeError::TooShort);
    }
    let version = buffer[0];
    let message_type = buffer[1];
    let count = read_be16(buffer, 2);
    let level_byte = buffer[11];
    if version != 1 {
        return Err(DecodeError::UnsupportedVersion);
    }
    if count == 0 {
        return Err(DecodeError::InvalidCount);
    }
    let level = match Level::from_u8(level_byte) {
        Some(l) => l,
        None => {
            return Err(DecodeError::InvalidLevel);
        },
    };
    if message_type == 2 {
        return Err(DecodeError::UnsupportedPayload);
    }
    if message_type != 1 {
        return Err(DecodeError::UnknownPayload);
    }
    let file_len = read_be16(buffer, 20) as usize;
    if n < HEADER_LEN_V1 + file_len + 2 {
        return Err(DecodeError::Truncated);
    }
    let text_len = read_be16(buffer, HEADER_LEN_V1 + file_len) as usize;
    if n < 24 + file_len + text_len {
        return Err(DecodeError::Truncated);
    }
    if n > 24 + file_len + text_len {
        return Err(DecodeError::TrailingBytes);
    }
    let timestamp = Timestamp {
        year: read_be16(buffer, 4),
        month: buffer[6],
        day: buffer[7],
        hour: buffer[8],
        minute: buffer[9],
        second: buffer[10],
        nanosecond: read_be32(buffer, 12),
    };
    let line = read_be32(buffer, 16);
    let file = copy_range(buffer, HEADER_LEN_V1, HEADER_LEN_V1 + file_len);
    let text = copy_range(buffer, 24 + file_len, 24 + file_len + text_len);
    let m = Message { timestamp, level, text, value: None, file, line, sender: None };
    proof {
        assert(spec_decode_v1(buffer@) is Ok);
        assert(m@ =~= spec_decode_v1(buffer@)->Ok_0);
    }
    Ok(m)
}

/// A level byte written from a level reads back as that level.
pub proof fn lemma_level_byte_roundtrip(l: Level)
    ensures
        Level::spec_from_u8(l.value()) == Some(l),
{
    match l {
        Level::Trace => {},
        Level::Information => {},
        Level::Warning => {},
        Level::Error => {},
        Level::Fatal => {},
    }
}

/// Round trip: decoding an encoded T1 packet yields the original message,
/// field for field, for every well-formed message without a typed value and
/// every declared message count of at least one.
pub proof fn lemma_decode_encode_v1(m: MessageV, count: u16)
    requires
        m.wf(),
        m.value is None,
        m.sender is None,
        count >= 1,
    ensures
        spec_decode_v1(spec_wire_t1(m, count)) == Ok::<MessageV, DecodeError>(m),
{
    let b = spec_wire_t1(m, count);
    let head = spec_header_v1(m, 1, count);
    let fl = m.file.len() as int;
    let tl = m.text.len() as int;
    assert(head.len() == 22 + fl);
    assert(b.len() == 24 + fl + tl);

    lemma_be16_roundtrip(count);
    lemma_be16_roundtrip(m.timestamp.year);
    lemma_be32_roundtrip(m.timestamp.nanosecond);
    lemma_be32_roundtrip(m.line);
    lemma_be16_roundtrip(m.file.len() as u16);
    lemma_be16_roundtrip(m.text.len() as u16);
    lemma_level_byte_roundtrip(m.level);

    assert(b[0] == 1 && b[1] == 1);
    assert(b[2] == be16(count)[0] && b[3] == be16(count)[1]);
    assert(be16_val(b[2], b[3]) == count);
    assert(b[4] == be16(m.timestamp.year)[0] && b[5] == be16(m.timestamp.year)[1]);
    assert(be16_val(b[4], b[5]) == m.timestamp.year);
    assert(b[6] == m.timestamp.month);
    assert(b[7] == m.timestamp.day);
    assert(b[8] == m.timestamp.hour);
    assert(b[9] == m.timestamp.minute);
    assert(b[10] == m.timestamp.second);
    assert(b[11] == m.level.value());
    assert(b[12] == be32(m.timestamp.nanosecond)[0] && b[13] == be32(m.timestamp.nanosecond)[1]
        && b[14] == be32(m.timestamp.nanosecond)[2] && b[15] == be32(m.timestamp.nanosecond)[3]);
    assert(be32_val(b[12], b[13], b[14], b[15]) == m.timestamp.nanosecond);
    assert(b[16] == be32(m.line)[0] && b[17] == be32(m.line)[1] && b[18] == be32(m.line)[2] && b[19]
        == be32(m.line)[3]);
    assert(be32_val(b[16], b[17], b[18], b[19]) == m.line);
    assert(b[20] == be16(m.file.len() as u16)[0] && b[21] == be16(m.file.len() as u16)[1]);
    assert(be16_val(b[20], b[21]) == m.file.len() as u16);
    assert(be16_val(b[20], b[21]) as int == fl);

    assert(b[22 + fl] == be16(m.text.len() as u16)[0] && b[23 + fl] == be16(
        m.text.len() as u16,
    )[1]);
    assert(be16_val(b[22 + fl], b[23 + fl]) as int == tl);

    assert(b.subrange(22, 22 + fl) =~= m.file);
    assert(b.subrange(24 + fl, 24 + fl + tl) =~= m.text);

    let d = spec_decode_v1(b);
    assert(d is Ok);
    assert(d->Ok_0 =~= m);
}

} // verus!
