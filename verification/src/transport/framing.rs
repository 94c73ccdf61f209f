//! Length-prefixed framing for stream transports.
//!
//! Wire layout: `[u32 BE payload_len][u8 channel][payload bytes]`.

use vstd::prelude::*;
use crate::transport::qos::{Channel, channel_code, channel_of_code};

verus! {

/// Size of the frame header: four length bytes and one channel byte.
pub const HEADER_LEN: usize = 5;

/// The four big-endian bytes of `n`.
pub open spec fn be_u32_bytes(n: u32) -> Seq<u8> {
    seq![
        (n / 0x100_0000) as u8,
        ((n / 0x1_0000) % 0x100) as u8,
        ((n / 0x100) % 0x100) as u8,
        (n % 0x100) as u8,
    ]
}

/// The number that four big-endian bytes stand for.
pub open spec fn be_u32_value(b0: u8, b1: u8, b2: u8, b3: u8) -> int {
    b0 * 0x100_0000 + b1 * 0x1_0000 + b2 * 0x100 + b3
}

/// The bytes of one frame carrying `payload` on `channel`. The length field holds the
/// payload length cut to 32 bits, as `as u32` does.
pub open spec fn encoded_frame(channel: Channel, payload: Seq<u8>) -> Seq<u8> {
    be_u32_bytes(payload.len() as u32) + seq![channel_code(channel)] + payload
}

/// The payload length a buffer of at least four bytes announces.
pub open spec fn announced_len(buf: Seq<u8>) -> int {
    be_u32_value(buf[0], buf[1], buf[2], buf[3])
}

/// The first complete frame at the head of `buf`: its channel, its payload and the
/// bytes after it; `None` while the frame is incomplete or its channel byte is unknown.
pub open spec fn spec_next_frame(buf: Seq<u8>) -> Option<(Channel, Seq<u8>, Seq<u8>)> {
    if buf.len() < 5 {
        None
    } else if buf.len() < 5 + announced_len(buf) {
        None
    } else {
        match channel_of_code(buf[4]) {
            None => None,
            Some(ch) => Some(
                (
                    ch,
                    buf.subrange(5, 5 + announced_len(buf)),
                    buf.subrange(5 + announced_len(buf), buf.len() as int),
                ),
            ),
        }
    }
}

/// Reading the big-endian bytes of a number gives the number back.
pub proof fn lemma_be_u32_roundtrip(n: u32)
    ensures
        be_u32_bytes(n).len() == 4,
        be_u32_value(be_u32_bytes(n)[0], be_u32_bytes(n)[1], be_u32_bytes(n)[2], be_u32_bytes(n)[3])
            == n,
{
    let b = be_u32_bytes(n);
    assert(b[0] == n / 0x100_0000);
    assert(b[1] == (n / 0x1_0000) % 0x100);
    assert(b[2] == (n / 0x100) % 0x100);
    assert(b[3] == n % 0x100);
    assert(n / 0x100_0000 * 0x100_0000 + (n / 0x1_0000) % 0x100 * 0x1_0000 + (n / 0x100) % 0x100
        * 0x100 + n % 0x100 == n) by (nonlinear_arith);
}

/// Stateless frame encoder.
pub struct FrameEncoder;

impl FrameEncoder {
    pub fn encode(channel: Channel, payload: &[u8]) -> (out: Vec<u8>)
        ensures
            out@ == encoded_frame(channel, payload@),
    {
        let n: u32 = payload.len() as u32;
        let mut out: Vec<u8> = Vec::new();
        out.push((n / 0x100_0000) as u8);
        out.push(((n / 0x1_0000) % 0x100) as u8);
        out.push(((n / 0x100) % 0x100) as u8);
        out.push((n % 0x100) as u8);
        out.push(channel.as_u8());
        let ghost head = out@;
        assert(head =~= be_u32_bytes(n) + seq![channel_code(channel)]);
        let mut i: usize = 0;
        while i < payload.len()
            invariant
                0 <= i <= payload@.len(),
                out@ =~= head + payload@.subrange(0, i as int),
            decreases payload@.len() - i,
        {
            out.push(payload[i]);
            i = i + 1;
        }
        assert(payload@.subrange(0, payload@.len() as int) =~= payload@);
        out
    }
}

/// Incremental frame decoder for byte streams (TCP, serial, ...).
#[derive(Debug)]
pub struct FrameDecoder {
    buf: Vec<u8>,
}

impl View for FrameDecoder {
    type V = Seq<u8>;

    /// The bytes received and not yet handed out as frames.
    closed spec fn view(&self) -> Seq<u8> {
        self.buf@
    }
}

impl FrameDecoder {
    pub fn new() -> (d: Self)
        ensures
            d@ == Seq::<u8>::empty(),
    {
        FrameDecoder { buf: Vec::new() }
    }

    pub fn feed(&mut self, data: &[u8])
        ensures
            final(self)@ == old(self)@ + data@,
    {
        let mut i: usize = 0;
        while i < data.len()
            invariant
                0 <= i <= data@.len(),
                self@ =~= old(self)@ + data@.subrange(0, i as int),
            decreases data@.len() - i,
        {
            self.buf.push(data[i]);
            i = i + 1;
        }
        assert(data@.subrange(0, data@.len() as int) =~= data@);
    }

    /// Pull the next complete frame, if one is buffered.
    pub fn next_frame(&mut self) -> (r: Option<(Channel, Vec<u8>)>)
        ensures
            match spec_next_frame(old(self)@) {
                None => r is None && final(self)@ == old(self)@,
                Some((ch, payload, rest)) => {
                    &&& r matches Some((c, p)) && c == ch && p@ == payload
                    &&& final(self)@ == rest
                },
            },
    {
        if self.buf.len() < HEADER_LEN {
            return None;
        }
        let len: u32 = (self.buf[0] as u32) * 0x100_0000 + (self.buf[1] as u32) * 0x1_0000
            + (self.buf[2] as u32) * 0x100 + (self.buf[3] as u32);
        let len: usize = len as usize;
        if self.buf.len() - HEADER_LEN < len {
            return None;
        }
        let channel = match Channel::from_u8(self.buf[4]) {
            Some(c) => c,
            None => {
                return None;
            },
        };
        let total: usize = HEADER_LEN + len;
        let ghost before = self.buf@;
        let rest = self.buf.split_off(total);
        let payload = self.buf.split_off(HEADER_LEN);
        self.buf = rest;
        assert(payload@ =~= before.subrange(5, total as int));
        Some((channel, payload))
    }
}

impl Default for FrameDecoder {
    fn default() -> (d: Self)
        ensures
            d@ == Seq::<u8>::empty(),
    {
        FrameDecoder::new()
    }
}

/// Decoding what the encoder wrote gives back the channel and the payload, and
/// leaves whatever followed the frame in the buffer.
pub proof fn lemma_decode_encoded(channel: Channel, payload: Seq<u8>, tail: Seq<u8>)
    requires
        payload.len() <= u32::MAX,
    ensures
        spec_next_frame(encoded_frame(channel, payload) + tail) == Some((channel, payload, tail)),
{
    let n = payload.len() as u32;
    let frame = encoded_frame(channel, payload);
    let buf = frame + tail;
    lemma_be_u32_roundtrip(n);
    assert(buf[0] == be_u32_bytes(n)[0]);
    assert(buf[1] == be_u32_bytes(n)[1]);
    assert(buf[2] == be_u32_bytes(n)[2]);
    assert(buf[3] == be_u32_bytes(n)[3]);
    assert(buf[4] == channel_code(channel));
    assert(announced_len(buf) == payload.len());
    assert(buf.subrange(5, 5 + payload.len() as int) =~= payload);
    assert(buf.subrange(5 + payload.len() as int, buf.len() as int) =~= tail);
}

/// No frame comes out of a buffer that holds only a strict prefix of a frame: a frame
/// split across reads is reassembled, never handed out half-received.
pub proof fn lemma_partial_frame_waits(channel: Channel, payload: Seq<u8>, k: int)
    requires
        payload.len() <= u32::MAX,
        0 <= k < encoded_frame(channel, payload).len(),
    ensures
        spec_next_frame(encoded_frame(channel, payload).subrange(0, k)) is None,
{
    let n = payload.len() as u32;
    let frame = encoded_frame(channel, payload);
    let part = frame.subrange(0, k);
    lemma_be_u32_roundtrip(n);
    if k >= 5 {
        assert(part[0] == frame[0]);
        assert(part[1] == frame[1]);
        assert(part[2] == frame[2]);
        assert(part[3] == frame[3]);
        assert(announced_len(part) == payload.len());
    }
}

/// The frame encoder writes exactly the header and the payload.
pub proof fn lemma_encoded_len(channel: Channel, payload: Seq<u8>)
    ensures
        encoded_frame(channel, payload).len() == HEADER_LEN + payload.len(),
{
}

} // verus!
