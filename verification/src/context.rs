//! A transfer polled half by half, [`SpliceIoCtx`].
//!
//! Each half is a loop around one descriptor. `begin_..` says which call to
//! make, if any; the caller waits for the descriptor to be ready, makes the
//! call and reports to `poll_..`, which says how to go on.

use crate::error::{ErrorKind, IoError};
use crate::fd::{IsFile, IsNotFile};
use crate::offset::{range_len, range_start, valid_range, Offset};
use crate::pipe::{Pipe, PipeView};
use crate::size::NonZeroSize;
use crate::transfer::{
    is_file_setup_error, is_resize_error, one_call, one_call_len, Attempt, SpliceRequest, Step,
    Transfer, TransferView,
};
use crate::transfer_report::TransferReport;
use core::marker::PhantomData;
use vstd::prelude::*;

verus! {

/// Splice I/O context from `R` to `W`.
///
/// `F` is the type of the pipe's descriptors.
#[derive(Debug)]
pub struct SpliceIoCtx<R, W, F> {
    transfer: Transfer<F>,
    /// Whether `W` has to be flushed.
    need_flush: bool,
    r: PhantomData<R>,
    w: PhantomData<W>,
}

/// What a [`SpliceIoCtx`] is.
pub struct SpliceIoCtxView<F> {
    pub transfer: TransferView<F>,
    pub need_flush: bool,
}

/// What came from the source.
#[derive(Clone, Copy, Debug, PartialEq, Eq)]
pub enum FromSource {
    /// So many bytes are now in the pipe.
    Moved(NonZeroSize),
    /// There is nothing more to come.
    Done,
}

/// How the half that serves the destination begins.
#[derive(Debug)]
pub enum ToDest {
    /// There is nothing to wait for.
    Over(Result<(), IoError>),
    /// Make this call once the destination is ready.
    Splice(SpliceRequest),
}

impl<R, W, F> View for SpliceIoCtx<R, W, F> {
    type V = SpliceIoCtxView<F>;

    closed spec fn view(&self) -> SpliceIoCtxView<F> {
        SpliceIoCtxView { transfer: self.transfer@, need_flush: self.need_flush }
    }
}

/// A context that has nothing to flush.
pub open spec fn idle<F>(transfer: TransferView<F>) -> SpliceIoCtxView<F> {
    SpliceIoCtxView { transfer, need_flush: false }
}

/// How many bytes to take from the source at once.
pub open spec fn next_len<F>(t: TransferView<F>, ideal_len: Option<NonZeroSize>) -> int {
    let rest = if t.remaining() < 0 {
        0
    } else {
        t.remaining()
    };
    one_call(
        match ideal_len {
            Some(ideal) => if (ideal@ as int) < rest {
                ideal@ as int
            } else {
                rest
            },
            None => rest,
        },
    )
}

impl<F> SpliceIoCtxView<F> {
    /// The context with other books.
    pub open spec fn with(self, transfer: TransferView<F>) -> SpliceIoCtxView<F> {
        SpliceIoCtxView { transfer, ..self }
    }

    /// The context after a try at the source. Any error but a transient one
    /// closes the fill side, as does the end of the source.
    pub open spec fn after_source(self, attempt: Attempt) -> SpliceIoCtxView<F> {
        match attempt {
            Attempt::NotReady => self,
            Attempt::ReadinessFailed(e) => if e.transient() {
                self
            } else {
                self.with(self.transfer.fill_closed())
            },
            Attempt::Tried(spliced) => {
                let moved = self.transfer.source_at(spliced.offset);
                match spliced.result {
                    Ok(n) => if n > 0 {
                        self.with(moved.plus_read(n as nat))
                    } else {
                        self.with(moved.fill_closed())
                    },
                    Err(e) => if e.transient() {
                        self.with(moved)
                    } else {
                        self.with(moved.fill_closed())
                    },
                }
            },
        }
    }

    /// The context after a try at the destination. Any error but a transient
    /// one closes the drain side.
    pub open spec fn after_dest(self, attempt: Attempt) -> SpliceIoCtxView<F> {
        match attempt {
            Attempt::NotReady => self,
            Attempt::ReadinessFailed(e) => if e.transient() {
                self
            } else {
                self.with(self.transfer.drain_closed())
            },
            Attempt::Tried(spliced) => {
                let moved = self.transfer.destination_at(spliced.offset);
                match spliced.result {
                    Ok(n) => if n > 0 {
                        SpliceIoCtxView {
                            transfer: moved.plus_written(n as nat),
                            need_flush: true,
                        }
                    } else {
                        self.with(moved.drain_closed())
                    },
                    Err(e) => if e.transient() {
                        self.with(moved)
                    } else {
                        self.with(moved.drain_closed())
                    },
                }
            },
        }
    }
}

impl<R, W, F> SpliceIoCtx<R, W, F> {
    /// A transfer between two descriptors that are not files.
    ///
    /// `pipe` is the pipe to use, or why it could not be made.
    pub fn new(pipe: Result<Pipe<F>, IoError>) -> (ctx: Result<Self, IoError>) where
        R: IsNotFile,
        W: IsNotFile,

        ensures
            match pipe {
                Ok(p) => ctx matches Ok(c) && c@ == idle(TransferView::fresh(p@)),
                Err(e) => ctx == Err::<Self, IoError>(e),
            },
    {
        match pipe {
            Ok(pipe) => Ok(
                SpliceIoCtx {
                    transfer: Transfer::new(pipe),
                    need_flush: false,
                    r: PhantomData,
                    w: PhantomData,
                },
            ),
            Err(e) => Err(e),
        }
    }

    /// A transfer from a file of `f_len` bytes.
    ///
    /// Without `f_offset_start` it is read from the beginning, without
    /// `f_offset_end` to the end. `pipe` is the pipe to use, or why it could
    /// not be made.
    pub fn with_input_file(
        f_len: u64,
        f_offset_start: Option<u64>,
        f_offset_end: Option<u64>,
        pipe: Result<Pipe<F>, IoError>,
    ) -> (ctx: Result<Self, IoError>) where R: IsFile, W: IsNotFile
        ensures
            ctx is Ok <==> valid_range(f_len, f_offset_start, f_offset_end) && range_len(
                f_len,
                f_offset_start,
                f_offset_end,
            ) <= usize::MAX && pipe is Ok,
            match ctx {
                Ok(c) => pipe matches Ok(p) && c@ == idle(
                    TransferView::of_file(
                        p@,
                        Offset::In(range_start(f_offset_start)),
                        f_len,
                        f_offset_start,
                        f_offset_end,
                    ),
                ),
                Err(e) => is_file_setup_error(
                    e,
                    f_len,
                    f_offset_start,
                    f_offset_end,
                    "file size too large"@,
                    pipe,
                ),
            },
    {
        match Transfer::of_file(
            true,
            f_len,
            f_offset_start,
            f_offset_end,
            "file size too large",
            pipe,
        ) {
            Ok(transfer) => Ok(
                SpliceIoCtx { transfer, need_flush: false, r: PhantomData, w: PhantomData },
            ),
            Err(e) => Err(e),
        }
    }

    /// A transfer into a file of `f_len` bytes.
    ///
    /// Without `f_offset_start` it is written from the beginning, without
    /// `f_offset_end` to the end. `pipe` is the pipe to use, or why it could
    /// not be made.
    pub fn with_output_file(
        f_len: u64,
        f_offset_start: Option<u64>,
        f_offset_end: Option<u64>,
        pipe: Result<Pipe<F>, IoError>,
    ) -> (ctx: Result<Self, IoError>) where R: IsNotFile, W: IsFile
        ensures
            ctx is Ok <==> valid_range(f_len, f_offset_start, f_offset_end) && range_len(
                f_len,
                f_offset_start,
                f_offset_end,
            ) <= usize::MAX && pipe is Ok,
            match ctx {
                Ok(c) => pipe matches Ok(p) && c@ == idle(
                    TransferView::of_file(
                        p@,
                        Offset::Out(range_start(f_offset_start)),
                        f_len,
                        f_offset_start,
                        f_offset_end,
                    ),
                ),
                Err(e) => is_file_setup_error(
                    e,
                    f_len,
                    f_offset_start,
                    f_offset_end,
                    "file size too large"@,
                    pipe,
                ),
            },
    {
        match Transfer::of_file(
            false,
            f_len,
            f_offset_start,
            f_offset_end,
            "file size too large",
            pipe,
        ) {
            Ok(transfer) => Ok(
                SpliceIoCtx { transfer, need_flush: false, r: PhantomData, w: PhantomData },
            ),
            Err(e) => Err(e),
        }
    }

    /// Sets the target number of bytes to copy from `R` to `W`.
    ///
    /// If `R` or `W` is a file, use [`SpliceIoCtx::with_input_file`] or
    /// [`SpliceIoCtx::with_output_file`] instead.
    pub fn with_target_len(self, size_to_splice: usize) -> (ctx: Self) where
        R: IsNotFile,
        W: IsNotFile,

        ensures
            ctx@ == (SpliceIoCtxView {
                transfer: TransferView { target: size_to_splice as nat, ..self@.transfer },
                ..self@
            }),
    {
        SpliceIoCtx {
            transfer: self.transfer.with_target_len(size_to_splice),
            need_flush: self.need_flush,
            r: PhantomData,
            w: PhantomData,
        }
    }

    /// Takes over the size of the resized pipe, see [`Pipe::with_pipe_size`].
    pub fn with_pipe_size(self, resized: Result<usize, IoError>) -> (ctx: Result<Self, IoError>)
        ensures
            ctx is Ok <==> self@.transfer.fill_open() && (resized matches Ok(n) && n > 0),
            match ctx {
                Ok(c) => resized matches Ok(n) && c@ == (SpliceIoCtxView {
                    transfer: TransferView {
                        pipe: PipeView { size: n as nat, ..self@.transfer.pipe },
                        ..self@.transfer
                    },
                    ..self@
                }),
                Err(e) => is_resize_error(e, self@.transfer, resized),
            },
    {
        match self.transfer.with_pipe_size(resized) {
            Ok(transfer) => Ok(
                SpliceIoCtx {
                    transfer,
                    need_flush: self.need_flush,
                    r: PhantomData,
                    w: PhantomData,
                },
            ),
            Err(e) => Err(e),
        }
    }
}

impl<R, W, F> SpliceIoCtx<R, W, F> {
    /// The pipe in between.
    pub fn pipe(&self) -> (pipe: &Pipe<F>)
        ensures
            pipe@ == self@.transfer.pipe,
    {
        self.transfer.pipe()
    }

    /// Bytes that have been read from `R`.
    pub fn bytes_read(&self) -> (bytes: usize)
        ensures
            bytes == self@.transfer.read,
    {
        self.transfer.bytes_read()
    }

    /// Bytes that have been written to `W`.
    pub fn bytes_written(&self) -> (bytes: usize)
        ensures
            bytes == self@.transfer.written,
    {
        self.transfer.bytes_written()
    }

    /// The size of the pipe in bytes.
    pub fn pipe_size(&self) -> (size: NonZeroSize)
        ensures
            size@ == self@.transfer.pipe.size,
    {
        self.transfer.pipe_size()
    }

    /// Whether `W` has been written to since the transfer began, so that it
    /// has to be flushed.
    pub fn need_flush(&self) -> (need: bool)
        ensures
            need == self@.need_flush,
    {
        self.need_flush
    }

    /// Whether both sides of the pipe are done.
    pub fn is_finished(&self) -> (finished: bool)
        ensures
            finished == (!self@.transfer.fill_open() && !self@.transfer.drain_open()),
    {
        self.transfer.pipe().is_fill_done() && self.transfer.pipe().is_drain_done()
    }

    /// The report of the sending half: what has been written to `W`.
    pub fn traffic_client_tx(&self, error: Option<IoError>) -> (report: TransferReport)
        ensures
            report.tx == self@.transfer.written,
            report.rx == 0,
            report.error == error,
    {
        self.transfer.traffic_client_tx(error)
    }

    /// The report of the receiving half: what has been read from `R`.
    pub fn traffic_client_rx(&self, error: Option<IoError>) -> (report: TransferReport)
        ensures
            report.tx == 0,
            report.rx == self@.transfer.read,
            report.error == error,
    {
        self.transfer.traffic_client_rx(error)
    }

    /// Begins, or goes on, to move data from the source into the pipe,
    /// `ideal_len` bytes at most. Without a request there is nothing more to
    /// come.
    ///
    /// Closes the fill side of the pipe when the target has been reached.
    pub fn begin_splice_from_source(&mut self, ideal_len: Option<NonZeroSize>) -> (request: Option<
        SpliceRequest,
    >)
        ensures
            ({
                let before = old(self)@.transfer;
                let len = next_len(before, ideal_len);
                if !before.fill_open() {
                    request is None && final(self)@ == old(self)@
                } else if len == 0 {
                    request is None && final(self)@ == old(self)@.with(before.fill_closed())
                } else {
                    &&& request == Some(
                        SpliceRequest { offset: before.offset.source(), max_len: len as usize },
                    )
                    &&& final(self)@ == old(self)@
                }
            }),
            request matches Some(r) ==> 0 < r.max_len == next_len(
                old(self)@.transfer,
                ideal_len,
            ) <= old(self)@.transfer.remaining(),
            old(self)@.transfer.fill_open() ==> (request is None
                <==> old(self)@.transfer.remaining() <= 0),
    {
        if self.transfer.pipe().is_fill_done() {
            return None;
        }
        let rest: usize = match self.transfer.size_to_splice().checked_sub(
            self.transfer.bytes_read(),
        ) {
            Some(rest) => rest,
            None => 0,
        };
        let len: usize = one_call_len(
            match ideal_len {
                Some(ideal) => if ideal.get() < rest {
                    ideal.get()
                } else {
                    rest
                },
                None => rest,
            },
        );
        if len == 0 {
            self.transfer.set_fill_done();
            return None;
        }
        Some(SpliceRequest { offset: self.transfer.source_offset(), max_len: len })
    }

    /// Moves data from the source into the pipe: takes in what came of
    /// [`SpliceIoCtx::begin_splice_from_source`]. To go on is to begin again.
    ///
    /// Closes the fill side of the pipe when the source has no more data or
    /// when an I/O error occurs, except `EINTR` and `EAGAIN`. After one of
    /// these two the call is to be made again.
    pub fn poll_splice_from_source(&mut self, attempt: Attempt) -> (step: Step<FromSource>)
        requires
            attempt matches Attempt::Tried(s) ==> (s.result matches Ok(n)
                ==> old(self)@.transfer.read + n <= usize::MAX),
        ensures
            final(self)@ == old(self)@.after_source(attempt),
            match attempt {
                Attempt::NotReady => step is Pending,
                Attempt::ReadinessFailed(e) => step == Step::<FromSource>::Ready(Err(e)),
                Attempt::Tried(spliced) => match spliced.result {
                    Ok(n) => if n > 0 {
                        step matches Step::Ready(Ok(FromSource::Moved(size))) && size@ == n
                    } else {
                        step == Step::<FromSource>::Ready(Ok(FromSource::Done))
                    },
                    Err(e) => if e.transient() {
                        step is Again
                    } else {
                        step == Step::<FromSource>::Ready(Err(e))
                    },
                },
            },
    {
        match attempt {
            Attempt::NotReady => Step::Pending,
            Attempt::ReadinessFailed(e) => {
                if !e.is_transient() {
                    self.transfer.set_fill_done();
                }
                Step::Ready(Err(e))
            },
            Attempt::Tried(spliced) => {
                self.transfer.set_source_offset(spliced.offset);
                match spliced.result {
                    Ok(n) => match NonZeroSize::new(n) {
                        Some(bytes) => {
                            self.transfer.add_read(n);
                            Step::Ready(Ok(FromSource::Moved(bytes)))
                        },
                        None => {
                            self.transfer.set_fill_done();
                            Step::Ready(Ok(FromSource::Done))
                        },
                    },
                    Err(e) => {
                        if e.is_transient() {
                            return Step::Again;
                        }
                        self.transfer.set_fill_done();
                        Step::Ready(Err(e))
                    },
                }
            },
        }
    }

    /// Begins, or goes on, to move data from the pipe to the destination.
    ///
    /// It is over when the pipe is empty. Closes the drain side of the pipe
    /// when no more data will come, or when more has been written than read,
    /// which would otherwise never stop.
    pub fn begin_splice_to_dest(&mut self) -> (begin: ToDest)
        ensures
            ({
                let before = old(self)@.transfer;
                if !before.drain_open() {
                    begin == ToDest::Over(Ok(())) && final(self)@ == old(self)@
                } else if before.buffered() < 0 {
                    &&& begin matches ToDest::Over(Err(e)) && e.is_own(
                        ErrorKind::Other,
                        "`bytes_written` larger than `bytes_read`"@,
                    )
                    &&& final(self)@ == old(self)@.with(before.drain_closed())
                } else if before.buffered() == 0 {
                    &&& begin == ToDest::Over(Ok(()))
                    &&& final(self)@ == (if before.fill_open() {
                        old(self)@
                    } else {
                        old(self)@.with(before.drain_closed())
                    })
                } else {
                    &&& begin == ToDest::Splice(
                        SpliceRequest {
                            offset: before.offset.destination(),
                            max_len: one_call(before.buffered()) as usize,
                        },
                    )
                    &&& final(self)@ == old(self)@
                }
            }),
            begin matches ToDest::Splice(r) ==> 0 < r.max_len == one_call(
                old(self)@.transfer.buffered(),
            ),
    {
        if self.transfer.pipe().is_drain_done() {
            return ToDest::Over(Ok(()));
        }
        match self.transfer.bytes_read().checked_sub(self.transfer.bytes_written()) {
            None => {
                self.transfer.set_drain_done();
                ToDest::Over(
                    Err(
                        IoError::new(
                            ErrorKind::Other,
                            "`bytes_written` larger than `bytes_read`",
                        ),
                    ),
                )
            },
            Some(buffered) => {
                if buffered == 0 {
                    if self.transfer.pipe().is_fill_done() {
                        self.transfer.set_drain_done();
                    }
                    return ToDest::Over(Ok(()));
                }
                ToDest::Splice(
                    SpliceRequest {
                        offset: self.transfer.destination_offset(),
                        max_len: one_call_len(buffered),
                    },
                )
            },
        }
    }

    /// Moves data from the pipe to the destination: takes in what came of
    /// [`SpliceIoCtx::begin_splice_to_dest`]. To go on is to begin again.
    ///
    /// Closes the drain side of the pipe when an I/O error occurs, except
    /// `EINTR` and `EAGAIN`. A destination that takes nothing is an error.
    pub fn poll_splice_to_dest(&mut self, attempt: Attempt) -> (step: Step<()>)
        requires
            attempt matches Attempt::Tried(s) ==> (s.result matches Ok(n)
                ==> old(self)@.transfer.written + n <= usize::MAX),
        ensures
            final(self)@ == old(self)@.after_dest(attempt),
            match attempt {
                Attempt::NotReady => step is Pending,
                Attempt::ReadinessFailed(e) => step == Step::<()>::Ready(Err(e)),
                Attempt::Tried(spliced) => match spliced.result {
                    Ok(n) => if n > 0 {
                        step is Again
                    } else {
                        step matches Step::Ready(Err(e)) && e.is_own(
                            ErrorKind::WriteZero,
                            "write zero"@,
                        )
                    },
                    Err(e) => if e.transient() {
                        step is Again
                    } else {
                        step == Step::<()>::Ready(Err(e))
                    },
                },
            },
    {
        match attempt {
            Attempt::NotReady => Step::Pending,
            Attempt::ReadinessFailed(e) => {
                if !e.is_transient() {
                    self.transfer.set_drain_done();
                }
                Step::Ready(Err(e))
            },
            Attempt::Tried(spliced) => {
                self.transfer.set_destination_offset(spliced.offset);
                match spliced.result {
                    Ok(n) => {
                        if n == 0 {
                            self.transfer.set_drain_done();
                            return Step::Ready(
                                Err(IoError::new(ErrorKind::WriteZero, "write zero")),
                            );
                        }
                        self.transfer.add_written(n);
                        self.need_flush = true;
                        Step::Again
                    },
                    Err(e) => {
                        if e.is_transient() {
                            return Step::Again;
                        }
                        self.transfer.set_drain_done();
                        Step::Ready(Err(e))
                    },
                }
            },
        }
    }
}

} // verus!
