//! Verified decision logic for moving bytes between file descriptors with
//! `splice(2)`.
//!
//! `splice(2)` needs a pipe between the two descriptors, so a copy alternates
//! between filling the pipe from the source and draining it into the
//! destination. Everything that decides what happens next is here, with
//! contracts: which call to make and for how many bytes, what an outcome does
//! to the counters, when a side of the pipe closes, when a transfer parks,
//! fails or finishes. The system calls themselves are made by the program
//! around this library, which reports each outcome back as a plain value.

pub mod call_laws;
pub mod context;
pub mod error;
pub mod fd;
pub mod io;
pub mod laws;
pub mod offset;
pub mod pipe;
pub mod size;
pub mod splice;
pub mod splicer;
pub mod transfer;
pub mod transfer_report;

pub use context::SpliceIoCtx;
pub use error::{ErrorKind, IoError};
pub use fd::{IsFile, IsNotFile};
pub use io::{SpliceBidiIo, SpliceIo};
pub use offset::Offset;
pub use pipe::Pipe;
pub use size::NonZeroSize;
pub use splice::SpliceCtx;
pub use splicer::Splicer;
pub use transfer_report::TransferReport;
