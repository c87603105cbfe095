//! Transport framing for a message-queue wire protocol: typed,
//! channel-addressed frames over a raw byte stream.

mod buffer;
pub mod connection;
pub mod frame;
pub mod laws;
pub mod reader;
pub mod writer;

pub use connection::SplitConnection;
pub use frame::DecodeOutcome;
pub use frame::Frame;
pub use frame::FrameHeader;
pub use frame::FRAME_END;
pub use reader::ReadStep;
pub use reader::Reader;
pub use writer::Writer;
