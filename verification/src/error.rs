//! I/O errors as plain values.

use vstd::prelude::*;

verus! {

/// What went wrong, in the categories that callers tell apart.
#[derive(Clone, Copy, Debug, PartialEq, Eq, Structural)]
pub enum ErrorKind {
    NotFound,
    PermissionDenied,
    ConnectionRefused,
    ConnectionReset,
    ConnectionAborted,
    NotConnected,
    AddrInUse,
    AddrNotAvailable,
    BrokenPipe,
    AlreadyExists,
    /// The operation would have to wait (`EAGAIN`).
    WouldBlock,
    InvalidInput,
    InvalidData,
    TimedOut,
    /// A write accepted no bytes at all.
    WriteZero,
    /// A signal arrived before the operation did anything (`EINTR`).
    Interrupted,
    UnexpectedEof,
    OutOfMemory,
    Unsupported,
    HostUnreachable,
    NetworkUnreachable,
    NetworkDown,
    NotADirectory,
    IsADirectory,
    DirectoryNotEmpty,
    ReadOnlyFilesystem,
    StaleNetworkFileHandle,
    StorageFull,
    NotSeekable,
    QuotaExceeded,
    FileTooLarge,
    ResourceBusy,
    ExecutableFileBusy,
    Deadlock,
    CrossesDevices,
    TooManyLinks,
    ArgumentListTooLong,
    Other,
}

/// An I/O error.
#[derive(Debug, PartialEq, Eq)]
pub struct IoError {
    pub kind: ErrorKind,
    /// The `errno` value, for an error that the operating system reported.
    pub code: Option<i32>,
    pub message: String,
}

impl IoError {
    /// Whether this is an error of the library's own making, with this kind
    /// and this message.
    pub open spec fn is_own(self, kind: ErrorKind, message: Seq<char>) -> bool {
        &&& self.kind == kind
        &&& self.code is None
        &&& self.message@ == message
    }

    /// An error that no system call reported.
    pub fn new(kind: ErrorKind, message: &str) -> (e: IoError)
        ensures
            e.is_own(kind, message@),
    {
        IoError { kind, code: None, message: message.to_owned() }
    }

    /// Whether the operation only has to be tried again once the descriptor
    /// is ready.
    pub fn would_block(&self) -> (b: bool)
        ensures
            b == (self.kind == ErrorKind::WouldBlock),
    {
        matches!(self.kind, ErrorKind::WouldBlock)
    }

    /// Whether the operation may simply be tried again: it would have had to
    /// wait, or a signal cut it short.
    pub fn is_transient(&self) -> (b: bool)
        ensures
            b == self.transient(),
    {
        matches!(self.kind, ErrorKind::WouldBlock | ErrorKind::Interrupted)
    }

    /// See [`IoError::is_transient`].
    pub open spec fn transient(self) -> bool {
        self.kind == ErrorKind::WouldBlock || self.kind == ErrorKind::Interrupted
    }
}

} // verus!
