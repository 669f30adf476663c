//! The books of a transfer: how much there is to move, how much has been
//! moved, at which file offset, through which pipe.

use crate::error::{ErrorKind, IoError};
use crate::offset::{range_len, range_start, valid_range, Offset};
use crate::pipe::{Pipe, PipeView, MAXIMUM_PIPE_SIZE};
use crate::size::NonZeroSize;
use crate::transfer_report::TransferReport;
use vstd::prelude::*;

verus! {

/// One `splice(2)` call to make, non-blocking.
#[derive(Clone, Copy, Debug, PartialEq, Eq)]
pub struct SpliceRequest {
    /// The offset to read or write the file at, if this end is a file.
    pub offset: Option<u64>,
    /// The most bytes to move.
    pub max_len: usize,
}

/// How many of `len` bytes to ask for in one call.
pub open spec fn one_call(len: int) -> int {
    if len < MAXIMUM_PIPE_SIZE {
        len
    } else {
        MAXIMUM_PIPE_SIZE as int
    }
}

/// How many of `len` bytes to ask for in one call.
pub(crate) fn one_call_len(len: usize) -> (bytes: usize)
    ensures
        bytes == one_call(len as int),
{
    if len < MAXIMUM_PIPE_SIZE {
        len
    } else {
        MAXIMUM_PIPE_SIZE
    }
}

/// What came of a [`SpliceRequest`]. Where there was no call to make, this is
/// zero bytes and no offset.
#[derive(Debug)]
pub struct Spliced {
    /// The file offset as the call left it.
    pub offset: Option<u64>,
    /// The number of bytes moved, or the error of the call.
    pub result: Result<usize, IoError>,
}

/// What came of one try at a descriptor.
#[derive(Debug)]
pub enum Attempt {
    /// The descriptor is not ready; the task is woken when it is.
    NotReady,
    /// Whether the descriptor is ready could not be found out.
    ReadinessFailed(IoError),
    /// The descriptor was ready, and was tried.
    Tried(Spliced),
}

/// What to do after an event.
#[derive(Debug)]
pub enum Step<T> {
    /// Go on at once.
    Again,
    /// Return to the scheduler, to go on when woken.
    Pending,
    /// The operation is over.
    Ready(Result<T, IoError>),
}

/// What the books say.
pub struct TransferView<F> {
    /// The file offset, if an end is a file.
    pub offset: Offset,
    /// The number of bytes to move in all.
    pub target: nat,
    /// The pipe in between.
    pub pipe: PipeView<F>,
    /// Bytes taken from the source so far.
    pub read: nat,
    /// Bytes handed to the destination so far.
    pub written: nat,
}

impl<F> TransferView<F> {
    /// A transfer that has not begun and that moves as much as there is.
    pub open spec fn fresh(pipe: PipeView<F>) -> TransferView<F> {
        TransferView {
            offset: Offset::Unset,
            target: isize::MAX as nat,
            pipe,
            read: 0,
            written: 0,
        }
    }

    /// A transfer of a range of a file that has not begun.
    pub open spec fn of_file(
        pipe: PipeView<F>,
        offset: Offset,
        f_len: u64,
        start: Option<u64>,
        end: Option<u64>,
    ) -> TransferView<F> {
        TransferView {
            offset,
            target: range_len(f_len, start, end) as nat,
            ..TransferView::fresh(pipe)
        }
    }

    /// Bytes still to be taken from the source.
    pub open spec fn remaining(self) -> int {
        self.target - self.read
    }

    /// Bytes that are in the pipe.
    pub open spec fn buffered(self) -> int {
        self.read - self.written
    }

    /// Whether bytes can still be put into the pipe.
    pub open spec fn fill_open(self) -> bool {
        self.pipe.fill_fd is Some
    }

    /// Whether bytes can still be taken out of the pipe.
    pub open spec fn drain_open(self) -> bool {
        self.pipe.drain_fd is Some
    }

    /// The books after a source that is a file was read up to `offset`.
    pub open spec fn source_at(self, offset: Option<u64>) -> TransferView<F> {
        match (self.offset, offset) {
            (Offset::In(_), Some(off)) => TransferView { offset: Offset::In(off), ..self },
            _ => self,
        }
    }

    /// The books after a destination that is a file was written up to
    /// `offset`.
    pub open spec fn destination_at(self, offset: Option<u64>) -> TransferView<F> {
        match (self.offset, offset) {
            (Offset::Out(_), Some(off)) => TransferView { offset: Offset::Out(off), ..self },
            _ => self,
        }
    }

    /// The books after `bytes` came in.
    pub open spec fn plus_read(self, bytes: nat) -> TransferView<F> {
        TransferView { read: self.read + bytes, ..self }
    }

    /// The books after `bytes` went out.
    pub open spec fn plus_written(self, bytes: nat) -> TransferView<F> {
        TransferView { written: self.written + bytes, ..self }
    }

    /// The books after the fill side was closed.
    pub open spec fn fill_closed(self) -> TransferView<F> {
        TransferView { pipe: PipeView { fill_fd: None, ..self.pipe }, ..self }
    }

    /// The books after the drain side was closed.
    pub open spec fn drain_closed(self) -> TransferView<F> {
        TransferView { pipe: PipeView { drain_fd: None, ..self.pipe }, ..self }
    }

    /// Whether nothing has been moved yet and everything still can be.
    pub open spec fn is_unstarted(self) -> bool {
        &&& self.read == 0
        &&& self.written == 0
        &&& self.fill_open()
        &&& self.drain_open()
    }
}

/// Why a transfer of a range of a file could not be set up. A range that is
/// not in the file comes first, then one that is too long to count, then a
/// pipe that could not be made.
pub open spec fn is_file_setup_error<F>(
    e: IoError,
    f_len: u64,
    start: Option<u64>,
    end: Option<u64>,
    too_long: Seq<char>,
    pipe: Result<Pipe<F>, IoError>,
) -> bool {
    if !valid_range(f_len, start, end) {
        e.is_own(ErrorKind::InvalidInput, "invalid offset range"@)
    } else if range_len(f_len, start, end) > usize::MAX {
        e.is_own(ErrorKind::InvalidInput, too_long)
    } else {
        pipe == Err::<Pipe<F>, IoError>(e)
    }
}

/// The books of a transfer.
#[derive(Debug)]
pub(crate) struct Transfer<F> {
    /// The offset to read the source at, or to write the destination at.
    offset: Offset,
    /// Target length to read from the source and write to the destination.
    size_to_splice: usize,
    /// Pipe used to splice data.
    pipe: Pipe<F>,
    /// Bytes that have been read from the source into the pipe.
    bytes_read: usize,
    /// Bytes that have been written from the pipe to the destination.
    bytes_written: usize,
}

impl<F> View for Transfer<F> {
    type V = TransferView<F>;

    closed spec fn view(&self) -> TransferView<F> {
        TransferView {
            offset: self.offset,
            target: self.size_to_splice as nat,
            pipe: self.pipe@,
            read: self.bytes_read as nat,
            written: self.bytes_written as nat,
        }
    }
}

impl<F> Transfer<F> {
    /// A transfer of as much as there is, `isize::MAX` bytes at most.
    pub fn new(pipe: Pipe<F>) -> (transfer: Self)
        ensures
            transfer@ == TransferView::fresh(pipe@),
    {
        Transfer {
            offset: Offset::Unset,
            size_to_splice: isize::MAX as usize,
            pipe,
            bytes_read: 0,
            bytes_written: 0,
        }
    }

    /// A transfer of a range of a file of `f_len` bytes.
    pub fn of_file(
        source: bool,
        f_len: u64,
        start: Option<u64>,
        end: Option<u64>,
        too_long: &str,
        pipe: Result<Pipe<F>, IoError>,
    ) -> (transfer: Result<Self, IoError>)
        ensures
            transfer is Ok <==> valid_range(f_len, start, end) && range_len(f_len, start, end)
                <= usize::MAX && pipe is Ok,
            match transfer {
                Ok(t) => pipe matches Ok(p) && t@ == TransferView::of_file(
                    p@,
                    if source {
                        Offset::In(range_start(start))
                    } else {
                        Offset::Out(range_start(start))
                    },
                    f_len,
                    start,
                    end,
                ),
                Err(e) => is_file_setup_error(e, f_len, start, end, too_long@, pipe),
            },
    {
        let off: u64 = start.unwrap_or(0);
        let len: u64 = match Offset::calc_size_to_splice(f_len, start, end) {
            Ok(len) => len,
            Err(e) => {
                return Err(e);
            },
        };
        if len > usize::MAX as u64 {
            return Err(IoError::new(ErrorKind::InvalidInput, too_long));
        }
        match pipe {
            Ok(pipe) => Ok(
                Transfer {
                    offset: if source {
                        Offset::In(off)
                    } else {
                        Offset::Out(off)
                    },
                    size_to_splice: len as usize,
                    pipe,
                    bytes_read: 0,
                    bytes_written: 0,
                },
            ),
            Err(e) => Err(e),
        }
    }

    /// Sets how many bytes to move in all.
    pub fn with_target_len(self, size_to_splice: usize) -> (transfer: Self)
        ensures
            transfer@ == (TransferView { target: size_to_splice as nat, ..self@ }),
    {
        Transfer { size_to_splice, ..self }
    }

    /// Takes over the size of the resized pipe, see [`Pipe::with_pipe_size`].
    pub fn with_pipe_size(self, resized: Result<usize, IoError>) -> (transfer: Result<
        Self,
        IoError,
    >)
        ensures
            transfer is Ok <==> self@.fill_open() && (resized matches Ok(n) && n > 0),
            match transfer {
                Ok(t) => resized matches Ok(n) && t@ == (TransferView {
                    pipe: PipeView { size: n as nat, ..self@.pipe },
                    ..self@
                }),
                Err(e) => is_resize_error(e, self@, resized),
            },
    {
        match self.pipe.with_pipe_size(resized) {
            Ok(pipe) => Ok(
                Transfer {
                    offset: self.offset,
                    size_to_splice: self.size_to_splice,
                    pipe,
                    bytes_read: self.bytes_read,
                    bytes_written: self.bytes_written,
                },
            ),
            Err(e) => Err(e),
        }
    }
}

/// Why a pipe could not be resized.
pub open spec fn is_resize_error<F>(
    e: IoError,
    transfer: TransferView<F>,
    resized: Result<usize, IoError>,
) -> bool {
    if !transfer.fill_open() {
        crate::pipe::is_fill_done_error(e)
    } else {
        match resized {
            Ok(_) => e.is_own(ErrorKind::Other, "fcntl returned zero pipe size"@),
            Err(cause) => e == cause,
        }
    }
}

impl<F> Transfer<F> {
    /// The pipe in between.
    pub fn pipe(&self) -> (pipe: &Pipe<F>)
        ensures
            pipe@ == self@.pipe,
    {
        &self.pipe
    }

    /// Target length of the transfer.
    pub fn size_to_splice(&self) -> (bytes: usize)
        ensures
            bytes == self@.target,
    {
        self.size_to_splice
    }

    /// Bytes that have been read from the source.
    pub fn bytes_read(&self) -> (bytes: usize)
        ensures
            bytes == self@.read,
    {
        self.bytes_read
    }

    /// Bytes that have been written to the destination.
    pub fn bytes_written(&self) -> (bytes: usize)
        ensures
            bytes == self@.written,
    {
        self.bytes_written
    }

    /// The size of the pipe in bytes.
    pub fn pipe_size(&self) -> (size: NonZeroSize)
        ensures
            size@ == self@.pipe.size,
    {
        self.pipe.size()
    }

    /// The offset to read the source at, if it is a file.
    pub fn source_offset(&self) -> (off: Option<u64>)
        ensures
            off == self@.offset.source(),
    {
        match self.offset {
            Offset::In(off) => Some(off),
            _ => None,
        }
    }

    /// The offset to write the destination at, if it is a file.
    pub fn destination_offset(&self) -> (off: Option<u64>)
        ensures
            off == self@.offset.destination(),
    {
        match self.offset {
            Offset::Out(off) => Some(off),
            _ => None,
        }
    }

    /// The report of the sending half: what has been written.
    pub fn traffic_client_tx(&self, error: Option<IoError>) -> (report: TransferReport)
        ensures
            report.tx == self@.written,
            report.rx == 0,
            report.error == error,
    {
        TransferReport { tx: self.bytes_written, rx: 0, error }
    }

    /// The report of the receiving half: what has been read.
    pub fn traffic_client_rx(&self, error: Option<IoError>) -> (report: TransferReport)
        ensures
            report.tx == 0,
            report.rx == self@.read,
            report.error == error,
    {
        TransferReport { tx: 0, rx: self.bytes_read, error }
    }

    /// Closes the fill side of the pipe.
    pub fn set_fill_done(&mut self)
        ensures
            final(self)@ == old(self)@.fill_closed(),
    {
        self.pipe.set_fill_done();
    }

    /// Closes the drain side of the pipe.
    pub fn set_drain_done(&mut self)
        ensures
            final(self)@ == old(self)@.drain_closed(),
    {
        self.pipe.set_drain_done();
    }

    /// Notes where the last call left the offset of the source.
    pub fn set_source_offset(&mut self, offset: Option<u64>)
        ensures
            final(self)@ == old(self)@.source_at(offset),
    {
        if let Some(new) = offset {
            if let Some(off) = self.offset.off_in() {
                *off = new;
            }
        }
    }

    /// Notes where the last call left the offset of the destination.
    pub fn set_destination_offset(&mut self, offset: Option<u64>)
        ensures
            final(self)@ == old(self)@.destination_at(offset),
    {
        if let Some(new) = offset {
            if let Some(off) = self.offset.off_out() {
                *off = new;
            }
        }
    }

    /// Counts bytes that came in.
    pub fn add_read(&mut self, bytes: usize)
        requires
            old(self)@.read + bytes <= usize::MAX,
        ensures
            final(self)@ == old(self)@.plus_read(bytes as nat),
    {
        self.bytes_read = self.bytes_read + bytes;
    }

    /// Counts bytes that went out.
    pub fn add_written(&mut self, bytes: usize)
        requires
            old(self)@.written + bytes <= usize::MAX,
        ensures
            final(self)@ == old(self)@.plus_written(bytes as nat),
    {
        self.bytes_written = self.bytes_written + bytes;
    }
}

} // verus!
