//! The inbound half: accumulates transport bytes and decodes one frame at
//! a time.
//!
//! The receive buffer persists across calls, so a frame may arrive split
//! across arbitrarily many transport reads: bytes of a not-yet-complete
//! frame are never discarded, and on success exactly the decoded frame's
//! bytes are consumed, leaving anything after it for the next call. The
//! transport itself is driven by the caller, which hands each read's bytes
//! (or the end of the stream) to `read_step`.

use vstd::prelude::*;

use crate::buffer::buf_advance;
use crate::buffer::buf_extend;
use crate::buffer::buf_len;
use crate::buffer::buf_slice;
use crate::buffer::buf_view;
use crate::buffer::buf_with_capacity;
use crate::frame::decode;
use crate::frame::decode_corrupted;
use crate::frame::decode_incomplete;
use crate::frame::decode_ok;
use crate::frame::decoded_channel;
use crate::frame::decoded_payload;
use crate::frame::frame_bytes;
use crate::frame::whole_len;
use crate::frame::DecodeOutcome;
use crate::frame::Frame;

verus! {

/// The initial room preallocated for a half-connection's buffer.
pub const DEFAULT_BUFFER_SIZE: usize = 8192;

/// What one step of the decode loop reports.
#[derive(Debug, Clone, PartialEq, Eq)]
pub enum ReadStep {
    /// One frame was decoded: its channel id and its value.
    Frame(u16, Frame),
    /// The buffered bytes do not yet hold a full frame: read again.
    NeedMore,
    /// The stream ended with nothing buffered: an orderly close.
    PeerShutdown,
    /// The stream ended mid-frame: the peer disappeared, data was lost.
    ConnectionFailure,
    /// The buffered bytes violate the framing shape: fatal, the caller
    /// must treat the connection as unusable and close it.
    Corrupted,
}

/// The inbound half's state: the receive buffer.
pub struct Reader {
    buffer: bytes::BytesMut,
}

impl Reader {
    /// The bytes read from the transport but not yet consumed by a
    /// decoded frame.
    pub closed spec fn pending(&self) -> Seq<u8> {
        buf_view(self.buffer)
    }

    pub fn new() -> (r: Reader)
        ensures
            r.pending() == Seq::<u8>::empty(),
    {
        Reader { buffer: buf_with_capacity(DEFAULT_BUFFER_SIZE) }
    }

    /// How many bytes are buffered.
    pub fn buffered(&self) -> (n: usize)
        ensures
            n == self.pending().len(),
    {
        buf_len(&self.buffer)
    }

    /// Appends one transport read's bytes behind what is already buffered,
    /// overwriting nothing.
    pub fn feed(&mut self, chunk: &[u8])
        ensures
            final(self).pending() == old(self).pending() + chunk@,
    {
        buf_extend(&mut self.buffer, chunk);
    }

    /// Attempts to decode one frame from the buffered bytes. On success,
    /// exactly the frame's bytes leave the buffer; otherwise the buffer is
    /// untouched.
    pub fn try_decode(&mut self) -> (r: DecodeOutcome)
        ensures
            ({
                let b = old(self).pending();
                match r {
                    DecodeOutcome::Incomplete => decode_incomplete(b)
                        && final(self).pending() == b,
                    DecodeOutcome::Corrupted => decode_corrupted(b)
                        && final(self).pending() == b,
                    DecodeOutcome::Decoded(n, channel, frame) => decode_ok(b)
                        && frame.wf()
                        && n == whole_len(b)
                        && channel == decoded_channel(b)
                        && frame.frame_type == b[0]
                        && frame.payload@ == decoded_payload(b)
                        && b.take(n as int) == frame_bytes(channel, frame)
                        && final(self).pending() == b.skip(n as int),
                }
            }),
    {
        let r = {
            let s = buf_slice(&self.buffer);
            decode(s)
        };
        match r {
            DecodeOutcome::Decoded(n, channel, frame) => {
                buf_advance(&mut self.buffer, n);
                DecodeOutcome::Decoded(n, channel, frame)
            },
            other => other,
        }
    }

    /// One iteration of the decode loop: `chunk` is what the transport
    /// just delivered, empty meaning the peer closed the stream. At most
    /// one frame is returned per call; a frame already complete in the
    /// buffer is returned even at end of stream, so an orderly close is
    /// reported only once nothing is left pending.
    pub fn read_step(&mut self, chunk: &[u8]) -> (r: ReadStep)
        ensures
            ({
                let b = old(self).pending() + chunk@;
                match r {
                    ReadStep::Frame(channel, frame) => decode_ok(b)
                        && frame.wf()
                        && channel == decoded_channel(b)
                        && frame.frame_type == b[0]
                        && frame.payload@ == decoded_payload(b)
                        && b.take(whole_len(b)) == frame_bytes(channel, frame)
                        && final(self).pending() == b.skip(whole_len(b)),
                    ReadStep::NeedMore => chunk@.len() > 0
                        && decode_incomplete(b)
                        && final(self).pending() == b,
                    ReadStep::PeerShutdown => chunk@.len() == 0
                        && b.len() == 0
                        && final(self).pending() == b,
                    ReadStep::ConnectionFailure => chunk@.len() == 0
                        && b.len() > 0
                        && decode_incomplete(b)
                        && final(self).pending() == b,
                    ReadStep::Corrupted => decode_corrupted(b) && final(self).pending() == b,
                }
            }),
    {
        self.feed(chunk);
        let r = self.try_decode();
        match r {
            DecodeOutcome::Decoded(_n, channel, frame) => ReadStep::Frame(channel, frame),
            DecodeOutcome::Corrupted => ReadStep::Corrupted,
            DecodeOutcome::Incomplete => {
                if chunk.len() > 0 {
                    ReadStep::NeedMore
                } else if self.buffered() == 0 {
                    ReadStep::PeerShutdown
                } else {
                    ReadStep::ConnectionFailure
                }
            },
        }
    }
}

} // verus!
