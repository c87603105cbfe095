//! The wire shape of one frame and its byte-exact specification.
//!
//! A frame on the wire is
//! `header(type:1, channel:2, length:4) ++ payload(length bytes) ++ end marker(1)`,
//! with the channel and length fields big-endian and the end marker a fixed
//! sentinel byte. The payload's field-level encoding belongs to the
//! protocol's codec and is opaque here: this layer carries it as plain bytes
//! and owns only the framing around it.

use vstd::prelude::*;

verus! {

/// The sentinel byte that closes every frame.
pub const FRAME_END: u8 = 0xCE;

/// The frame-type tags the protocol defines: method, content header,
/// content body, heartbeat.
pub open spec fn valid_frame_type(t: u8) -> bool {
    t == 1 || t == 2 || t == 3 || t == 8
}

/// Returns whether `t` is one of the protocol's frame-type tags.
pub fn is_valid_frame_type(t: u8) -> (r: bool)
    ensures
        r == valid_frame_type(t),
{
    t == 1 || t == 2 || t == 3 || t == 8
}

/// The transient 7-byte header written in front of a payload. Its
/// `payload_size` starts as a zero placeholder and is patched once the
/// payload's encoded length is known.
#[derive(Debug, Clone, Copy)]
pub struct FrameHeader {
    pub frame_type: u8,
    pub channel: u16,
    pub payload_size: u32,
}

/// One protocol frame as this layer sees it: its type tag and its payload,
/// already encoded to bytes by the codec.
#[derive(Debug, Clone, PartialEq, Eq)]
pub struct Frame {
    pub frame_type: u8,
    pub payload: Vec<u8>,
}

impl Frame {
    /// A frame this layer can put on the wire: a known type tag, and a
    /// payload whose length fits the header's 4-byte length field.
    pub open spec fn wf(self) -> bool {
        valid_frame_type(self.frame_type) && self.payload@.len() <= u32::MAX
    }

    pub fn get_frame_type(&self) -> (t: u8)
        ensures
            t == self.frame_type,
    {
        self.frame_type
    }
}

/// The two bytes of `x` in big-endian order.
pub open spec fn be16_bytes(x: u16) -> Seq<u8> {
    seq![(x / 256) as u8, (x % 256) as u8]
}

/// The value the big-endian byte pair `(hi, lo)` stands for.
pub open spec fn be16_val(hi: u8, lo: u8) -> int {
    hi * 256 + lo
}

/// The four bytes of `x` in big-endian order.
pub open spec fn be32_bytes(x: u32) -> Seq<u8> {
    seq![
        (x / 0x1000000) as u8,
        ((x / 0x10000) % 256) as u8,
        ((x / 0x100) % 256) as u8,
        (x % 256) as u8,
    ]
}

/// The value the big-endian bytes `b0 b1 b2 b3` stand for.
pub open spec fn be32_val(b0: u8, b1: u8, b2: u8, b3: u8) -> int {
    b0 * 0x1000000 + b1 * 0x10000 + b2 * 0x100 + b3
}

/// The 7 header bytes: type tag, big-endian channel, big-endian length.
pub open spec fn header_bytes(t: u8, channel: u16, payload_size: u32) -> Seq<u8> {
    seq![t] + be16_bytes(channel) + be32_bytes(payload_size)
}

/// The exact bytes of `frame` addressed to `channel` on the wire.
pub open spec fn frame_bytes(channel: u16, frame: Frame) -> Seq<u8> {
    header_bytes(frame.frame_type, channel, frame.payload@.len() as u32) + frame.payload@
        + seq![FRAME_END]
}

pub proof fn lemma_be16_round_trip(x: u16)
    ensures
        be16_val(be16_bytes(x)[0], be16_bytes(x)[1]) == x,
{
    vstd::arithmetic::div_mod::lemma_fundamental_div_mod(x as int, 256);
}

pub proof fn lemma_be16_bytes_of_val(hi: u8, lo: u8)
    ensures
        0 <= be16_val(hi, lo) <= u16::MAX,
        be16_bytes(be16_val(hi, lo) as u16) == seq![hi, lo],
{
    let x = be16_val(hi, lo);
    assert(x / 256 == hi && x % 256 == lo) by (nonlinear_arith)
        requires
            x == hi * 256 + lo,
            hi < 256,
            lo < 256,
    ;
    assert(be16_bytes(x as u16) =~= seq![hi, lo]);
}

pub proof fn lemma_be32_round_trip(x: u32)
    ensures
        be32_val(be32_bytes(x)[0], be32_bytes(x)[1], be32_bytes(x)[2], be32_bytes(x)[3]) == x,
{
    let b0 = x / 0x1000000;
    let b1 = (x / 0x10000) % 256;
    let b2 = (x / 0x100) % 256;
    let b3 = x % 256;
    assert(b0 * 0x1000000 + b1 * 0x10000 + b2 * 0x100 + b3 == x) by (nonlinear_arith)
        requires
            b0 == x / 0x1000000,
            b1 == (x / 0x10000) % 256,
            b2 == (x / 0x100) % 256,
            b3 == x % 256,
            x <= u32::MAX,
    ;
}

pub proof fn lemma_be32_bytes_of_val(b0: u8, b1: u8, b2: u8, b3: u8)
    ensures
        0 <= be32_val(b0, b1, b2, b3) <= u32::MAX,
        be32_bytes(be32_val(b0, b1, b2, b3) as u32) == seq![b0, b1, b2, b3],
{
    let x = be32_val(b0, b1, b2, b3);
    assert(x / 0x1000000 == b0 && (x / 0x10000) % 256 == b1 && (x / 0x100) % 256 == b2 && x % 256
        == b3) by (nonlinear_arith)
        requires
            x == b0 * 0x1000000 + b1 * 0x10000 + b2 * 0x100 + b3,
            b0 < 256,
            b1 < 256,
            b2 < 256,
            b3 < 256,
    ;
    assert(be32_bytes(x as u32) =~= seq![b0, b1, b2, b3]);
}

/// The payload length the header bytes of `b` announce.
/// Meaningful once `b` holds the full 7-byte header.
pub open spec fn announced_len(b: Seq<u8>) -> int {
    be32_val(b[3], b[4], b[5], b[6])
}

/// The length of the whole frame at the front of `b`:
/// 7 header bytes, the announced payload, one end-marker byte.
pub open spec fn whole_len(b: Seq<u8>) -> int {
    8 + announced_len(b)
}

/// `b` does not yet hold a full frame: nothing contradicts the framing
/// shape, but more bytes are needed.
pub open spec fn decode_incomplete(b: Seq<u8>) -> bool {
    (b.len() == 0 || valid_frame_type(b[0])) && (b.len() < 7 || b.len() < whole_len(b))
}

/// `b` contradicts the framing shape: an unknown type tag, or a complete
/// frame whose closing byte is not the end marker.
pub open spec fn decode_corrupted(b: Seq<u8>) -> bool {
    (b.len() > 0 && !valid_frame_type(b[0])) || (b.len() >= 7 && valid_frame_type(b[0]) && b.len()
        >= whole_len(b) && b[whole_len(b) - 1] != FRAME_END)
}

/// One full, well-formed frame sits at the front of `b`.
pub open spec fn decode_ok(b: Seq<u8>) -> bool {
    b.len() >= 7 && valid_frame_type(b[0]) && b.len() >= whole_len(b) && b[whole_len(b) - 1]
        == FRAME_END
}

/// The channel id of the frame at the front of `b`.
pub open spec fn decoded_channel(b: Seq<u8>) -> int {
    be16_val(b[1], b[2])
}

/// The payload of the frame at the front of `b`.
pub open spec fn decoded_payload(b: Seq<u8>) -> Seq<u8> {
    b.subrange(7, whole_len(b) - 1)
}

/// What one decode attempt on the accumulated bytes reports: more bytes
/// are needed, the bytes violate the framing shape, or one frame was
/// decoded, giving how many bytes it occupied, its channel id and its value.
#[derive(Debug, Clone, PartialEq, Eq)]
pub enum DecodeOutcome {
    Incomplete,
    Corrupted,
    Decoded(usize, u16, Frame),
}

/// Decodes the frame at the front of `bytes`, reading without consuming:
/// the caller discards exactly the reported length on success and nothing
/// otherwise. At most one frame is examined per call; trailing bytes are
/// never touched.
pub fn decode(bytes: &[u8]) -> (r: DecodeOutcome)
    ensures
        match r {
            DecodeOutcome::Incomplete => decode_incomplete(bytes@),
            DecodeOutcome::Corrupted => decode_corrupted(bytes@),
            DecodeOutcome::Decoded(n, channel, frame) => decode_ok(bytes@) && frame.wf() && n
                == whole_len(bytes@) && channel == decoded_channel(bytes@) && frame.frame_type
                == bytes@[0] && frame.payload@ == decoded_payload(bytes@) && bytes@.take(n as int)
                == frame_bytes(channel, frame),
        },
{
    let len = bytes.len();
    if len == 0 {
        return DecodeOutcome::Incomplete;
    }
    let t = *vstd::slice::slice_index_get(bytes, 0);
    if !is_valid_frame_type(t) {
        return DecodeOutcome::Corrupted;
    }
    if len < 7 {
        return DecodeOutcome::Incomplete;
    }
    let b3 = *vstd::slice::slice_index_get(bytes, 3);
    let b4 = *vstd::slice::slice_index_get(bytes, 4);
    let b5 = *vstd::slice::slice_index_get(bytes, 5);
    let b6 = *vstd::slice::slice_index_get(bytes, 6);
    let size: u32 = (b3 as u32) * 0x1000000 + (b4 as u32) * 0x10000 + (b5 as u32) * 0x100 + (
    b6 as u32);
    assert(size == announced_len(bytes@));
    if (len as u64) < 8u64 + (size as u64) {
        return DecodeOutcome::Incomplete;
    }
    let consumed: usize = (8u64 + (size as u64)) as usize;
    assert(consumed == whole_len(bytes@));
    if *vstd::slice::slice_index_get(bytes, consumed - 1) != FRAME_END {
        return DecodeOutcome::Corrupted;
    }
    let b1 = *vstd::slice::slice_index_get(bytes, 1);
    let b2 = *vstd::slice::slice_index_get(bytes, 2);
    let channel: u16 = (b1 as u16) * 256 + (b2 as u16);
    let mut payload: Vec<u8> = Vec::new();
    let mut i: usize = 7;
    while i < consumed - 1
        invariant
            7 <= i <= consumed - 1,
            consumed <= bytes@.len(),
            payload@ == bytes@.subrange(7, i as int),
        decreases consumed - 1 - i,
    {
        payload.push(*vstd::slice::slice_index_get(bytes, i));
        proof {
            assert(payload@ =~= bytes@.subrange(7, i + 1));
        }
        i = i + 1;
    }
    let frame = Frame { frame_type: t, payload };
    proof {
        lemma_be16_bytes_of_val(b1, b2);
        lemma_be32_bytes_of_val(b3, b4, b5, b6);
        assert(be16_bytes(channel) == seq![b1, b2]);
        assert(be32_bytes(size) == seq![b3, b4, b5, b6]);
        assert(bytes@.take(consumed as int) =~= frame_bytes(channel, frame));
    }
    DecodeOutcome::Decoded(consumed, channel, frame)
}

/// Encodes the 7 header bytes. Called with a zero `payload_size`
/// placeholder first; the length field is patched in place later.
pub fn encode_header(h: &FrameHeader) -> (out: Vec<u8>)
    ensures
        out@ == header_bytes(h.frame_type, h.channel, h.payload_size),
{
    let mut out: Vec<u8> = Vec::new();
    out.push(h.frame_type);
    out.push((h.channel / 256) as u8);
    out.push((h.channel % 256) as u8);
    out.push((h.payload_size / 0x1000000) as u8);
    out.push(((h.payload_size / 0x10000) % 256) as u8);
    out.push(((h.payload_size / 0x100) % 256) as u8);
    out.push((h.payload_size % 256) as u8);
    proof {
        assert(out@ =~= header_bytes(h.frame_type, h.channel, h.payload_size));
    }
    out
}

} // verus!
