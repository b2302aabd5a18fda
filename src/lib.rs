//! Control of an on-chip Embedded Trace FIFO through its debug registers, and
//! recovery of the trace byte stream from the formatted frames it returns.
pub mod capture;
pub mod demux;
pub mod fifo;
pub mod lookup;
pub mod registers;

pub use capture::{Access, CaptureError, CaptureSequencer, Phase};
pub use demux::{demultiplex, select_tag, Demultiplexer, TaggedByte};
pub use registers::{EtfMode, FormatFlushControl, Mode, Status};
