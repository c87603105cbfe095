//! The outbound half: serializes handshake bytes and complete frames into
//! the send buffer.
//!
//! `write_frame` performs the patch-after-encode protocol: the 7-byte
//! header goes in first with a zero placeholder in its length field, the
//! payload follows, then the 4 length bytes are overwritten in place with
//! the big-endian payload length — the only in-place mutation in the
//! pipeline — and the end marker closes the frame. The caller takes the
//! staged bytes with `take_pending`, sends them in one transport write,
//! and by that the buffer is cleared.

use vstd::prelude::*;

use crate::buffer::buf_advance;
use crate::buffer::buf_append_end_marker;
use crate::buffer::buf_extend;
use crate::buffer::buf_len;
use crate::buffer::buf_set;
use crate::buffer::buf_slice;
use crate::buffer::buf_view;
use crate::buffer::buf_with_capacity;
use crate::frame::be16_bytes;
use crate::frame::be32_bytes;
use crate::frame::encode_header;
use crate::frame::frame_bytes;
use crate::frame::header_bytes;
use crate::frame::Frame;
use crate::frame::FrameHeader;
use crate::reader::DEFAULT_BUFFER_SIZE;

verus! {

/// The outbound half's state: the send buffer.
pub struct Writer {
    buffer: bytes::BytesMut,
}

impl Writer {
    /// The bytes staged for sending but not yet taken for the transport.
    pub closed spec fn pending(&self) -> Seq<u8> {
        buf_view(self.buffer)
    }

    pub fn new() -> (w: Writer)
        ensures
            w.pending() == Seq::<u8>::empty(),
    {
        Writer { buffer: buf_with_capacity(DEFAULT_BUFFER_SIZE) }
    }

    /// How many bytes are staged.
    pub fn buffered(&self) -> (n: usize)
        ensures
            n == self.pending().len(),
    {
        buf_len(&self.buffer)
    }

    /// Stages already-serialized handshake bytes as they are, not
    /// frame-wrapped: only the initial, frame-less protocol header
    /// exchange uses this. Returns how many bytes were staged.
    pub fn write(&mut self, encoded: &[u8]) -> (n: usize)
        ensures
            final(self).pending() == old(self).pending() + encoded@,
            n == encoded@.len(),
    {
        buf_extend(&mut self.buffer, encoded);
        encoded.len()
    }

    /// Stages one complete frame: header with a zero length placeholder,
    /// payload, the length field patched in place at its fixed offset,
    /// end marker. Returns how many bytes were staged.
    pub fn write_frame(&mut self, channel: u16, frame: &Frame) -> (n: usize)
        requires
            frame.wf(),
        ensures
            final(self).pending() == old(self).pending() + frame_bytes(channel, *frame),
            n == frame_bytes(channel, *frame).len(),
    {
        let base = buf_len(&self.buffer);
        // Reserve the header region; its length field is a placeholder,
        // patched below once the payload's exact size is known.
        let header = FrameHeader {
            frame_type: frame.get_frame_type(),
            channel,
            payload_size: 0,
        };
        let encoded_header = encode_header(&header);
        buf_extend(&mut self.buffer, encoded_header.as_slice());
        buf_extend(&mut self.buffer, frame.payload.as_slice());
        let total = buf_len(&self.buffer);
        let payload_size = total - base - 7;
        assert(payload_size == frame.payload@.len());
        let size: u32 = payload_size as u32;
        // Patch the 4 length bytes inside the already-staged header.
        buf_set(&mut self.buffer, base + 3, (size / 0x1000000) as u8);
        buf_set(&mut self.buffer, base + 4, ((size / 0x10000) % 256) as u8);
        buf_set(&mut self.buffer, base + 5, ((size / 0x100) % 256) as u8);
        buf_set(&mut self.buffer, base + 6, (size % 256) as u8);
        buf_append_end_marker(&mut self.buffer);
        proof {
            let old_bytes = old(self).pending();
            let t = frame.frame_type;
            assert(header_bytes(t, channel, 0) =~= seq![t] + be16_bytes(channel) + seq![
                0u8,
                0u8,
                0u8,
                0u8,
            ]);
            assert(self.pending() =~= old_bytes + frame_bytes(channel, *frame));
        }
        let after = buf_len(&self.buffer);
        after - base
    }

    /// Hands over everything staged, to be flushed to the transport in one
    /// write, and discards it from the buffer.
    pub fn take_pending(&mut self) -> (out: Vec<u8>)
        ensures
            out@ == old(self).pending(),
            final(self).pending() == Seq::<u8>::empty(),
    {
        let n = buf_len(&self.buffer);
        let out = {
            let s = buf_slice(&self.buffer);
            vstd::slice::slice_to_vec(s)
        };
        buf_advance(&mut self.buffer, n);
        proof {
            assert(self.pending() =~= Seq::<u8>::empty());
        }
        out
    }
}

} // verus!
