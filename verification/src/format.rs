//! Rendering of an accepted message as one line of text, shared by the
//! console and file sinks: `[<level>] - <timestamp> (<file>(<line>)) <text>`
//! with the level as its numeric rank and the timestamp as
//! `YYYY-MM-DD HH:MM:SS.NNNNNNNNN`, zero-padded.

use vstd::prelude::*;

use crate::protocol::Message;
use crate::protocol::MessageV;
use crate::protocol::Timestamp;

verus! {

/// ASCII `[`.
pub const LBRACKET: u8 = 0x5B;

/// ASCII `]`.
pub const RBRACKET: u8 = 0x5D;

/// ASCII `(`.
pub const LPAREN: u8 = 0x28;

/// ASCII `)`.
pub const RPAREN: u8 = 0x29;

/// ASCII space.
pub const SPACE: u8 = 0x20;

/// ASCII `-`.
pub const DASH: u8 = 0x2D;

/// ASCII `:`.
pub const COLON: u8 = 0x3A;

/// ASCII `.`.
pub const DOT: u8 = 0x2E;

/// ASCII digit of `n % 10`.
pub open spec fn spec_digit(n: nat) -> u8 {
    (0x30 + n % 10) as u8
}

/// Decimal digits of `n`, most significant first, no leading zeros (a
/// single zero digit for zero).
pub open spec fn spec_dec(n: nat) -> Seq<u8>
    decreases n,
{
    if n < 10 {
        seq![spec_digit(n)]
    } else {
        spec_dec(n / 10) + seq![spec_digit(n)]
    }
}

/// `k` ASCII zeros (none when `k` is not positive).
pub open spec fn spec_zeros(k: int) -> Seq<u8> {
    Seq::new(if k < 0 { 0nat } else { k as nat }, |i: int| 0x30u8)
}

/// Decimal digits of `n`, zero-padded on the left to at least `w` digits.
pub open spec fn spec_dec_pad(n: nat, w: nat) -> Seq<u8> {
    spec_zeros(w - spec_dec(n).len()) + spec_dec(n)
}

/// The timestamp as `YYYY-MM-DD HH:MM:SS.NNNNNNNNN`.
pub open spec fn spec_timestamp_text(t: Timestamp) -> Seq<u8> {
    spec_dec_pad(t.year as nat, 4) + seq![DASH] + spec_dec_pad(t.month as nat, 2) + seq![DASH]
        + spec_dec_pad(t.day as nat, 2) + seq![SPACE] + spec_dec_pad(t.hour as nat, 2) + seq![COLON]
        + spec_dec_pad(t.minute as nat, 2) + seq![COLON] + spec_dec_pad(t.second as nat, 2)
        + seq![DOT] + spec_dec_pad(t.nanosecond as nat, 9)
}

/// The whole line: `[<level>] - <timestamp> (<file>(<line>)) <text>`.
pub open spec fn spec_format_line(m: MessageV) -> Seq<u8> {
    seq![LBRACKET] + spec_dec(m.level.value() as nat) + seq![RBRACKET, SPACE, DASH, SPACE]
        + spec_timestamp_text(m.timestamp) + seq![SPACE, LPAREN] + m.file + seq![LPAREN]
        + spec_dec(m.line as nat) + seq![RPAREN, RPAREN, SPACE] + m.text
}

/// Append the decimal digits of `n`.
fn push_dec(buf: &mut Vec<u8>, n: u32)
    ensures
        final(buf)@ == old(buf)@ + spec_dec(n as nat),
    decreases n,
{
    if n < 10 {
        buf.push(0x30 + (n as u8));
        assert(buf@ =~= old(buf)@ + spec_dec(n as nat));
    } else {
        push_dec(buf, n / 10);
        buf.push(0x30 + ((n % 10) as u8));
        assert(buf@ =~= old(buf)@ + spec_dec(n as nat));
    }
}

/// A digit string is never longer than the number it renders, plus one.
proof fn lemma_dec_len_le(n: nat)
    ensures
        spec_dec(n).len() <= n + 1,
    decreases n,
{
    if n >= 10 {
        lemma_dec_len_le(n / 10);
    }
}

/// How many decimal digits `n` has.
fn dec_len(n: u32) -> (r: usize)
    ensures
        r == spec_dec(n as nat).len(),
        r >= 1,
    decreases n,
{
    if n < 10 {
        1
    } else {
        proof {
            lemma_dec_len_le(n as nat / 10);
        }
        1 + dec_len(n / 10)
    }
}

/// Append `k` ASCII zeros.
fn push_zeros(buf: &mut Vec<u8>, k: usize)
    ensures
        final(buf)@ == old(buf)@ + spec_zeros(k as int),
{
    let mut i: usize = 0;
    while i < k
        invariant
            i <= k,
            buf@ == old(buf)@ + spec_zeros(i as int),
        decreases k - i,
    {
        buf.push(0x30);
        i = i + 1;
        assert(buf@ =~= old(buf)@ + spec_zeros(i as int));
    }
}

/// Append the decimal digits of `n`, zero-padded on the left to at least
/// `w` digits.
fn push_dec_pad(buf: &mut Vec<u8>, n: u32, w: usize)
    ensures
        final(buf)@ == old(buf)@ + spec_dec_pad(n as nat, w as nat),
{
    let len = dec_len(n);
    if w > len {
        push_zeros(buf, w - len);
    }
    push_dec(buf, n);
    assert(buf@ =~= old(buf)@ + spec_dec_pad(n as nat, w as nat));
}

/// Append the bytes of `src`.
fn push_all(buf: &mut Vec<u8>, src: &Vec<u8>)
    ensures
        final(buf)@ == old(buf)@ + src@,
{
    let mut i: usize = 0;
    while i < src.len()
        invariant
            i <= src.len(),
            buf@ == old(buf)@ + src@.subrange(0, i as int),
        decreases src.len() - i,
    {
        buf.push(src[i]);
        i = i + 1;
        assert(buf@ =~= old(buf)@ + src@.subrange(0, i as int));
    }
    assert(buf@ =~= old(buf)@ + src@);
}

/// Append the timestamp as `YYYY-MM-DD HH:MM:SS.NNNNNNNNN`.
#[verifier::rlimit(60)]
fn push_timestamp(buf: &mut Vec<u8>, t: &Timestamp)
    ensures
        final(buf)@ == old(buf)@ + spec_timestamp_text(*t),
{
    push_dec_pad(buf, t.year as u32, 4);
    buf.push(DASH);
    push_dec_pad(buf, t.month as u32, 2);
    buf.push(DASH);
    push_dec_pad(buf, t.day as u32, 2);
    buf.push(SPACE);
    push_dec_pad(buf, t.hour as u32, 2);
    buf.push(COLON);
    push_dec_pad(buf, t.minute as u32, 2);
    buf.push(COLON);
    push_dec_pad(buf, t.second as u32, 2);
    buf.push(DOT);
    push_dec_pad(buf, t.nanosecond, 9);
    assert(buf@ =~= old(buf)@ + spec_timestamp_text(*t));
}

/// Render a message as the one line of text that the console and file
/// sinks write: `[<level>] - <timestamp> (<file>(<line>)) <text>`, as
/// UTF-8 bytes without a trailing newline.
pub fn format_line(message: &Message) -> (r: Vec<u8>)
    ensures
        r@ == spec_format_line(message@),
{
    let mut buf: Vec<u8> = Vec::new();
    buf.push(LBRACKET);
    push_dec(&mut buf, message.level.as_u8() as u32);
    buf.push(RBRACKET);
    buf.push(SPACE);
    buf.push(DASH);
    buf.push(SPACE);
    push_timestamp(&mut buf, &message.timestamp);
    buf.push(SPACE);
    buf.push(LPAREN);
    push_all(&mut buf, &message.file);
    buf.push(LPAREN);
    push_dec(&mut buf, message.line);
    buf.push(RPAREN);
    buf.push(RPAREN);
    buf.push(SPACE);
    push_all(&mut buf, &message.text);
    assert(buf@ =~= spec_format_line(message@));
    buf
}

} // verus!
