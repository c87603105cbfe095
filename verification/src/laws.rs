//! What the framing layer guarantees, stated and proved once over the
//! spec functions that the Reader's and Writer's own contracts speak of.

use vstd::prelude::*;

use crate::frame::be32_bytes;
use crate::frame::be32_val;
use crate::frame::decode_corrupted;
use crate::frame::decode_incomplete;
use crate::frame::decode_ok;
use crate::frame::decoded_channel;
use crate::frame::decoded_payload;
use crate::frame::frame_bytes;
use crate::frame::header_bytes;
use crate::frame::lemma_be16_round_trip;
use crate::frame::lemma_be32_round_trip;
use crate::frame::whole_len;
use crate::frame::Frame;
use crate::frame::FRAME_END;

verus! {

/// Every byte sequence is in exactly one of the three decode states —
/// needing more bytes, corrupted, or holding one full frame — so a decode
/// attempt never reports an ambiguous condition, and an operation either
/// fully completes or fails.
pub proof fn lemma_decode_states_exclusive(b: Seq<u8>)
    ensures
        decode_incomplete(b) || decode_corrupted(b) || decode_ok(b),
        !(decode_incomplete(b) && decode_corrupted(b)),
        !(decode_incomplete(b) && decode_ok(b)),
        !(decode_corrupted(b) && decode_ok(b)),
{
}

/// Round-trip: the encoded bytes of any well-formed frame, followed by any
/// trailing bytes, decode to exactly that channel id and frame value,
/// consuming exactly the frame's length and leaving the trailing bytes.
pub proof fn lemma_round_trip(channel: u16, frame: Frame, rest: Seq<u8>)
    requires
        frame.wf(),
    ensures
        decode_ok(frame_bytes(channel, frame) + rest),
        whole_len(frame_bytes(channel, frame) + rest) == frame_bytes(channel, frame).len(),
        decoded_channel(frame_bytes(channel, frame) + rest) == channel,
        (frame_bytes(channel, frame) + rest)[0] == frame.frame_type,
        decoded_payload(frame_bytes(channel, frame) + rest) == frame.payload@,
        (frame_bytes(channel, frame) + rest).skip(frame_bytes(channel, frame).len() as int)
            == rest,
{
    let b = frame_bytes(channel, frame) + rest;
    let size = frame.payload@.len() as u32;
    lemma_be32_round_trip(size);
    lemma_be16_round_trip(channel);
    assert(b[3] == be32_bytes(size)[0] && b[4] == be32_bytes(size)[1] && b[5] == be32_bytes(
        size,
    )[2] && b[6] == be32_bytes(size)[3]);
    assert(whole_len(b) == 8 + frame.payload@.len());
    assert(b[whole_len(b) - 1] == FRAME_END);
    assert(decoded_payload(b) =~= frame.payload@);
    assert(b.skip(frame_bytes(channel, frame).len() as int) =~= rest);
}

/// Split-delivery tolerance: however one frame's bytes (plus any trailing
/// bytes) are cut into chunks, once all chunks have been appended the
/// buffered bytes are the same, and decoding them yields exactly that
/// frame, consuming no more and no fewer bytes than the frame's length and
/// leaving the trailing bytes intact.
pub proof fn lemma_split_delivery(channel: u16, frame: Frame, chunks: Seq<Seq<u8>>, rest: Seq<u8>)
    requires
        frame.wf(),
        chunks.flatten() == frame_bytes(channel, frame) + rest,
    ensures
        decode_ok(chunks.flatten()),
        whole_len(chunks.flatten()) == frame_bytes(channel, frame).len(),
        decoded_channel(chunks.flatten()) == channel,
        decoded_payload(chunks.flatten()) == frame.payload@,
        chunks.flatten().skip(whole_len(chunks.flatten())) == rest,
{
    lemma_round_trip(channel, frame, rest);
}

/// Multi-frame buffering: two frames concatenated in the buffer decode in
/// order — the first decode consumes exactly the first frame and leaves
/// the second intact, which then decodes on its own, with no
/// cross-contamination between the two.
pub proof fn lemma_multi_frame(c1: u16, f1: Frame, c2: u16, f2: Frame)
    requires
        f1.wf(),
        f2.wf(),
    ensures
        ({
            let b = frame_bytes(c1, f1) + frame_bytes(c2, f2);
            decode_ok(b) && decoded_channel(b) == c1 && decoded_payload(b) == f1.payload@ && b[0]
                == f1.frame_type && b.skip(whole_len(b)) == frame_bytes(c2, f2) && decode_ok(
                frame_bytes(c2, f2),
            ) && decoded_channel(frame_bytes(c2, f2)) == c2 && decoded_payload(
                frame_bytes(c2, f2),
            ) == f2.payload@ && frame_bytes(c2, f2)[0] == f2.frame_type
        }),
{
    lemma_round_trip(c1, f1, frame_bytes(c2, f2));
    lemma_round_trip(c2, f2, Seq::<u8>::empty());
    assert(frame_bytes(c2, f2) + Seq::<u8>::empty() =~= frame_bytes(c2, f2));
}

/// Corrupted end marker: flipping the trailing end-marker byte of an
/// otherwise well-formed frame makes the bytes report corruption, never a
/// silent misparse.
pub proof fn lemma_corrupted_end_marker(channel: u16, frame: Frame, wrong: u8)
    requires
        frame.wf(),
        wrong != FRAME_END,
    ensures
        decode_corrupted(frame_bytes(channel, frame).update(frame_bytes(channel, frame).len() - 1, wrong)),
{
    let b = frame_bytes(channel, frame);
    lemma_round_trip(channel, frame, Seq::<u8>::empty());
    assert(b + Seq::<u8>::empty() =~= b);
    let flipped = b.update(b.len() - 1, wrong);
    assert(flipped[3] == b[3] && flipped[4] == b[4] && flipped[5] == b[5] && flipped[6] == b[6]);
    assert(whole_len(flipped) == whole_len(b));
    assert(flipped[whole_len(flipped) - 1] == wrong);
}

/// Header length-patch correctness: in the encoded frame, the 4 length
/// bytes at the fixed header offset are the big-endian encoding of the
/// payload's exact length, and decode back to it.
pub proof fn lemma_header_length_patch(channel: u16, frame: Frame)
    requires
        frame.wf(),
    ensures
        frame_bytes(channel, frame).subrange(3, 7) == be32_bytes(frame.payload@.len() as u32),
        be32_val(
            frame_bytes(channel, frame)[3],
            frame_bytes(channel, frame)[4],
            frame_bytes(channel, frame)[5],
            frame_bytes(channel, frame)[6],
        ) == frame.payload@.len(),
{
    let b = frame_bytes(channel, frame);
    let size = frame.payload@.len() as u32;
    lemma_be32_round_trip(size);
    assert(header_bytes(frame.frame_type, channel, size).len() == 7);
    assert(b.subrange(3, 7) =~= be32_bytes(size));
}

} // verus!
