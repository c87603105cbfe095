//! Opening a connection as two independent halves.
//!
//! A transport connection is split into an exclusively-owned read half and
//! write half so that one task can read while another writes, with no
//! shared mutable state and no locking between them. The transport work —
//! connecting and splitting the stream — belongs to the caller; this layer
//! owns the two halves' framing state.

use vstd::prelude::*;

use crate::reader::Reader;
use crate::writer::Writer;

verus! {

/// Builds the two halves of one connection.
pub struct SplitConnection;

impl SplitConnection {
    /// The framing state of a freshly opened connection: a Reader and a
    /// Writer, each with an empty buffer, independently usable without
    /// coordination.
    pub fn open() -> (halves: (Reader, Writer))
        ensures
            halves.0.pending() == Seq::<u8>::empty(),
            halves.1.pending() == Seq::<u8>::empty(),
    {
        (Reader::new(), Writer::new())
    }
}

} // verus!
