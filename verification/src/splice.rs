//! One-direction splice state, [`SpliceCtx`].

use crate::error::{ErrorKind, IoError};
use crate::fd::{IsFile, IsNotFile};
use crate::offset::{range_len, range_start, valid_range, Offset};
use crate::pipe::{Pipe, PipeView};
use crate::size::NonZeroSize;
use crate::transfer::{
    is_file_setup_error, is_resize_error, one_call, one_call_len, SpliceRequest, Spliced, Transfer,
    TransferView,
};
use crate::transfer_report::TransferReport;
use core::marker::PhantomData;
use vstd::prelude::*;

verus! {

/// State for a `splice(2)` operation from `R` to `W`: the pipe used as the
/// kernel-side buffer, the byte counters, and any file offset.
///
/// `F` is the type of the pipe's descriptors.
#[derive(Debug)]
pub struct SpliceCtx<R, W, F> {
    transfer: Transfer<F>,
    r: PhantomData<R>,
    w: PhantomData<W>,
}

/// The outcome of a single splice attempt between a descriptor and the
/// internal pipe.
#[derive(Clone, Copy, Debug, PartialEq, Eq)]
pub enum SpliceOutcome {
    /// The source is exhausted, or everything has been delivered.
    Closed,
    /// No bytes were moved.
    NoProgress,
    /// So many bytes were moved.
    BytesWritten(usize),
}

impl<R, W, F> View for SpliceCtx<R, W, F> {
    type V = TransferView<F>;

    closed spec fn view(&self) -> TransferView<F> {
        self.transfer@
    }
}

impl<F> TransferView<F> {
    /// The call that moves bytes from the source into the pipe, unless the
    /// target has been reached.
    pub open spec fn fill_request(self) -> Option<SpliceRequest> {
        if self.remaining() == 0 {
            None
        } else {
            Some(
                SpliceRequest {
                    offset: self.offset.source(),
                    max_len: one_call(self.remaining()) as usize,
                },
            )
        }
    }

    /// The call that moves bytes from the pipe to the destination, unless the
    /// pipe is empty.
    pub open spec fn drain_request(self) -> Option<SpliceRequest> {
        if self.buffered() == 0 {
            None
        } else {
            Some(
                SpliceRequest {
                    offset: self.offset.destination(),
                    max_len: one_call(self.buffered()) as usize,
                },
            )
        }
    }

    /// The books after a fill attempt, and its outcome.
    pub open spec fn after_fill(self, spliced: Spliced) -> (
        TransferView<F>,
        Result<SpliceOutcome, IoError>,
    ) {
        if self.remaining() == 0 {
            (self.fill_closed(), Ok(SpliceOutcome::Closed))
        } else {
            let moved = self.source_at(spliced.offset);
            match spliced.result {
                Ok(n) => if n > 0 {
                    (moved.plus_read(n as nat), Ok(SpliceOutcome::BytesWritten(n)))
                } else {
                    (moved.fill_closed(), Ok(SpliceOutcome::Closed))
                },
                Err(e) => (moved, Err(e)),
            }
        }
    }

    /// The books after a drain attempt, and its outcome.
    pub open spec fn after_drain(self, spliced: Spliced) -> (
        TransferView<F>,
        Result<SpliceOutcome, IoError>,
    ) {
        if self.buffered() == 0 {
            if self.fill_open() {
                (self, Ok(SpliceOutcome::NoProgress))
            } else {
                (self.drain_closed(), Ok(SpliceOutcome::Closed))
            }
        } else {
            let moved = self.destination_at(spliced.offset);
            match spliced.result {
                Ok(n) => if n > 0 {
                    (moved.plus_written(n as nat), Ok(SpliceOutcome::BytesWritten(n)))
                } else {
                    (moved, Ok(SpliceOutcome::NoProgress))
                },
                Err(e) => (moved, Err(e)),
            }
        }
    }
}

impl<R, W, F> SpliceCtx<R, W, F> {
    /// A transfer between two descriptors that are not files.
    ///
    /// `pipe` is the pipe to use, or why it could not be made.
    pub fn new(pipe: Result<Pipe<F>, IoError>) -> (ctx: Result<Self, IoError>) where
        R: IsNotFile,
        W: IsNotFile,

        ensures
            match pipe {
                Ok(p) => ctx matches Ok(c) && c@ == TransferView::fresh(p@),
                Err(e) => ctx == Err::<Self, IoError>(e),
            },
    {
        match pipe {
            Ok(pipe) => Ok(
                SpliceCtx { transfer: Transfer::new(pipe), r: PhantomData, w: PhantomData },
            ),
            Err(e) => Err(e),
        }
    }

    /// A transfer from a file of `f_len` bytes.
    ///
    /// Without `f_offset_start` it is read from the beginning, without
    /// `f_offset_end` to the end. `pipe` is the pipe to use, or why it could
    /// not be made.
    pub fn with_input_file(
        f_len: u64,
        f_offset_start: Option<u64>,
        f_offset_end: Option<u64>,
        pipe: Result<Pipe<F>, IoError>,
    ) -> (ctx: Result<Self, IoError>) where R: IsFile, W: IsNotFile
        ensures
            ctx is Ok <==> valid_range(f_len, f_offset_start, f_offset_end) && range_len(
                f_len,
                f_offset_start,
                f_offset_end,
            ) <= usize::MAX && pipe is Ok,
            match ctx {
                Ok(c) => pipe matches Ok(p) && c@ == TransferView::of_file(
                    p@,
                    Offset::In(range_start(f_offset_start)),
                    f_len,
                    f_offset_start,
                    f_offset_end,
                ),
                Err(e) => is_file_setup_error(
                    e,
                    f_len,
                    f_offset_start,
                    f_offset_end,
                    "file size too large"@,
                    pipe,
                ),
            },
    {
        match Transfer::of_file(
            true,
            f_len,
            f_offset_start,
            f_offset_end,
            "file size too large",
            pipe,
        ) {
            Ok(transfer) => Ok(SpliceCtx { transfer, r: PhantomData, w: PhantomData }),
            Err(e) => Err(e),
        }
    }

    /// A transfer into a file of `f_len` bytes.
    ///
    /// Without `f_offset_start` it is written from the beginning, without
    /// `f_offset_end` to the end. `pipe` is the pipe to use, or why it could
    /// not be made.
    pub fn with_output_file(
        f_len: u64,
        f_offset_start: Option<u64>,
        f_offset_end: Option<u64>,
        pipe: Result<Pipe<F>, IoError>,
    ) -> (ctx: Result<Self, IoError>) where R: IsNotFile, W: IsFile
        ensures
            ctx is Ok <==> valid_range(f_len, f_offset_start, f_offset_end) && range_len(
                f_len,
                f_offset_start,
                f_offset_end,
            ) <= usize::MAX && pipe is Ok,
            match ctx {
                Ok(c) => pipe matches Ok(p) && c@ == TransferView::of_file(
                    p@,
                    Offset::Out(range_start(f_offset_start)),
                    f_len,
                    f_offset_start,
                    f_offset_end,
                ),
                Err(e) => is_file_setup_error(
                    e,
                    f_len,
                    f_offset_start,
                    f_offset_end,
                    "splice range too large"@,
                    pipe,
                ),
            },
    {
        match Transfer::of_file(
            false,
            f_len,
            f_offset_start,
            f_offset_end,
            "splice range too large",
            pipe,
        ) {
            Ok(transfer) => Ok(SpliceCtx { transfer, r: PhantomData, w: PhantomData }),
            Err(e) => Err(e),
        }
    }

    /// Sets the target number of bytes to copy from `R` to `W`.
    ///
    /// If `R` or `W` is a file, use [`SpliceCtx::with_input_file`] or
    /// [`SpliceCtx::with_output_file`] instead.
    pub fn with_target_len(self, size_to_splice: usize) -> (ctx: Self) where
        R: IsNotFile,
        W: IsNotFile,

        ensures
            ctx@ == (TransferView { target: size_to_splice as nat, ..self@ }),
    {
        SpliceCtx {
            transfer: self.transfer.with_target_len(size_to_splice),
            r: PhantomData,
            w: PhantomData,
        }
    }

    /// Takes over the size of the resized pipe, see [`Pipe::with_pipe_size`].
    pub fn with_pipe_size(self, resized: Result<usize, IoError>) -> (ctx: Result<Self, IoError>)
        ensures
            ctx is Ok <==> self@.fill_open() && (resized matches Ok(n) && n > 0),
            match ctx {
                Ok(c) => resized matches Ok(n) && c@ == (TransferView {
                    pipe: PipeView { size: n as nat, ..self@.pipe },
                    ..self@
                }),
                Err(e) => is_resize_error(e, self@, resized),
            },
    {
        match self.transfer.with_pipe_size(resized) {
            Ok(transfer) => Ok(SpliceCtx { transfer, r: PhantomData, w: PhantomData }),
            Err(e) => Err(e),
        }
    }
}

impl<R, W, F> SpliceCtx<R, W, F> {
    /// The pipe in between.
    pub fn pipe(&self) -> (pipe: &Pipe<F>)
        ensures
            pipe@ == self@.pipe,
    {
        self.transfer.pipe()
    }

    /// Bytes that have been read from `R`.
    pub fn bytes_read(&self) -> (bytes: usize)
        ensures
            bytes == self@.read,
    {
        self.transfer.bytes_read()
    }

    /// Bytes that have been written to `W`.
    pub fn bytes_written(&self) -> (bytes: usize)
        ensures
            bytes == self@.written,
    {
        self.transfer.bytes_written()
    }

    /// Whether the pipe currently holds bytes that have not yet been written
    /// to `W`.
    pub fn pipe_has_data(&self) -> (has_data: bool)
        ensures
            has_data == (self@.buffered() > 0),
    {
        self.transfer.bytes_read() > self.transfer.bytes_written()
    }

    /// Whether the pipe is full and cannot accept more bytes from `R` until
    /// some are drained to `W`. An empty pipe is never full.
    pub fn pipe_is_full(&self) -> (full: bool)
        requires
            self@.written <= self@.read,
        ensures
            full == (self@.buffered() >= self@.pipe.size),
            full ==> self@.buffered() > 0,
    {
        self.transfer.bytes_read() - self.transfer.bytes_written()
            >= self.transfer.pipe_size().get()
    }

    /// The size of the pipe in bytes.
    pub fn pipe_size(&self) -> (size: NonZeroSize)
        ensures
            size@ == self@.pipe.size,
    {
        self.transfer.pipe_size()
    }

    /// Whether the source has nothing more to give.
    pub fn is_source_done(&self) -> (done: bool)
        ensures
            done == !self@.fill_open(),
    {
        self.transfer.pipe().is_fill_done()
    }

    /// Whether the source has nothing more to give and everything that it gave
    /// has been delivered.
    pub fn is_finished(&self) -> (finished: bool)
        ensures
            finished == (!self@.fill_open() && self@.buffered() == 0),
    {
        self.transfer.pipe().is_fill_done() && self.transfer.bytes_read()
            == self.transfer.bytes_written()
    }

    /// The report of the sending half: what has been written to `W`.
    pub fn traffic_client_tx(&self, error: Option<IoError>) -> (report: TransferReport)
        ensures
            report.tx == self@.written,
            report.rx == 0,
            report.error == error,
    {
        self.transfer.traffic_client_tx(error)
    }

    /// The report of the receiving half: what has been read from `R`.
    pub fn traffic_client_rx(&self, error: Option<IoError>) -> (report: TransferReport)
        ensures
            report.tx == 0,
            report.rx == self@.read,
            report.error == error,
    {
        self.transfer.traffic_client_rx(error)
    }

    /// The call that the next [`SpliceCtx::try_splice_from_source`] is about,
    /// from `R` into the fill side of the pipe.
    pub fn source_request(&self) -> (request: Option<SpliceRequest>)
        requires
            self@.read <= self@.target,
        ensures
            request == self@.fill_request(),
            request is None <==> self@.remaining() == 0,
            request matches Some(r) ==> 0 < r.max_len == one_call(self@.remaining()),
    {
        let bytes_remaining: usize = self.transfer.size_to_splice() - self.transfer.bytes_read();
        if bytes_remaining == 0 {
            return None;
        }
        Some(
            SpliceRequest {
                offset: self.transfer.source_offset(),
                max_len: one_call_len(bytes_remaining),
            },
        )
    }

    /// The call that the next [`SpliceCtx::try_splice_to_dest`] is about, from
    /// the drain side of the pipe to `W`.
    pub fn dest_request(&self) -> (request: Option<SpliceRequest>)
        requires
            self@.written <= self@.read,
        ensures
            request == self@.drain_request(),
            request is None <==> self@.buffered() == 0,
            request matches Some(r) ==> 0 < r.max_len == one_call(self@.buffered()),
    {
        let bytes_remaining: usize = self.transfer.bytes_read() - self.transfer.bytes_written();
        if bytes_remaining == 0 {
            return None;
        }
        Some(
            SpliceRequest {
                offset: self.transfer.destination_offset(),
                max_len: one_call_len(bytes_remaining),
            },
        )
    }

    /// Notes where a call that failed left the offset of the source.
    pub(crate) fn set_source_offset(&mut self, offset: Option<u64>)
        ensures
            final(self)@ == old(self)@.source_at(offset),
    {
        self.transfer.set_source_offset(offset);
    }

    /// Notes where a call that failed left the offset of the destination.
    pub(crate) fn set_destination_offset(&mut self, offset: Option<u64>)
        ensures
            final(self)@ == old(self)@.destination_at(offset),
    {
        self.transfer.set_destination_offset(offset);
    }

    /// Moves bytes from the source into the pipe: takes in what came of
    /// [`SpliceCtx::source_request`].
    ///
    /// Closes the fill side when the target has been reached, or when the
    /// source gave no bytes, which is its end.
    pub fn try_splice_from_source(&mut self, spliced: Spliced) -> (outcome: Result<
        SpliceOutcome,
        IoError,
    >)
        requires
            old(self)@.read <= old(self)@.target,
            old(self)@.remaining() > 0 ==> old(self)@.fill_open(),
            spliced.result matches Ok(n) ==> old(self)@.read + n <= usize::MAX,
        ensures
            (final(self)@, outcome) == old(self)@.after_fill(spliced),
    {
        if self.transfer.size_to_splice() - self.transfer.bytes_read() == 0 {
            // The target has been reached; the source is done filling the pipe.
            self.transfer.set_fill_done();
            return Ok(SpliceOutcome::Closed);
        }
        self.transfer.set_source_offset(spliced.offset);
        match spliced.result {
            Ok(n) => {
                if n > 0 {
                    self.transfer.add_read(n);
                    return Ok(SpliceOutcome::BytesWritten(n));
                }
                // No bytes means that the source has come to its end.
                self.transfer.set_fill_done();
                Ok(SpliceOutcome::Closed)
            },
            Err(e) => Err(e),
        }
    }

    /// Moves bytes from the pipe to the destination: takes in what came of
    /// [`SpliceCtx::dest_request`].
    ///
    /// Closes the drain side when the source is done and the pipe is empty.
    pub fn try_splice_to_dest(&mut self, spliced: Spliced) -> (outcome: Result<
        SpliceOutcome,
        IoError,
    >)
        requires
            old(self)@.written <= old(self)@.read,
            old(self)@.buffered() > 0 ==> old(self)@.drain_open(),
            spliced.result matches Ok(n) ==> old(self)@.written + n <= usize::MAX,
        ensures
            (final(self)@, outcome) == old(self)@.after_drain(spliced),
    {
        if self.transfer.bytes_read() - self.transfer.bytes_written() == 0 {
            if self.is_source_done() {
                // The source is done and the pipe is drained.
                self.transfer.set_drain_done();
                return Ok(SpliceOutcome::Closed);
            }
            return Ok(SpliceOutcome::NoProgress);
        }
        self.transfer.set_destination_offset(spliced.offset);
        match spliced.result {
            Ok(n) => {
                if n > 0 {
                    self.transfer.add_written(n);
                    return Ok(SpliceOutcome::BytesWritten(n));
                }
                Ok(SpliceOutcome::NoProgress)
            },
            Err(e) => Err(e),
        }
    }
}

} // verus!
