//! Single non-blocking splice attempts, [`Splicer`].

use crate::error::{ErrorKind, IoError};
use crate::fd::{IsFile, IsNotFile};
use crate::offset::{range_len, range_start, valid_range, Offset};
use crate::pipe::{Pipe, PipeView};
use crate::size::NonZeroSize;
use crate::transfer::{
    is_file_setup_error, is_resize_error, one_call, one_call_len, SpliceRequest, Spliced, Transfer,
    TransferView,
};
use crate::transfer_report::TransferReport;
use core::marker::PhantomData;
use vstd::prelude::*;

verus! {

/// State for splicing from `R` to `W` one attempt at a time. An attempt on a
/// side of the pipe that is closed, or with nothing to move, does nothing.
///
/// `F` is the type of the pipe's descriptors.
#[derive(Debug)]
pub struct Splicer<R, W, F> {
    transfer: Transfer<F>,
    r: PhantomData<R>,
    w: PhantomData<W>,
}

impl<R, W, F> View for Splicer<R, W, F> {
    type V = TransferView<F>;

    closed spec fn view(&self) -> TransferView<F> {
        self.transfer@
    }
}

/// Whether bytes are to be taken from the source: the pipe can be filled and
/// the target has not been reached.
pub open spec fn wants_source<F>(t: TransferView<F>) -> bool {
    t.fill_open() && t.remaining() > 0
}

/// Whether bytes are to be handed to the destination: the pipe can be drained
/// and holds some.
pub open spec fn wants_destination<F>(t: TransferView<F>) -> bool {
    t.drain_open() && t.buffered() > 0
}

/// The books after an attempt to fill the pipe.
pub open spec fn source_tried<F>(t: TransferView<F>, spliced: Spliced) -> TransferView<F> {
    if !t.fill_open() {
        t
    } else if t.remaining() <= 0 {
        t.fill_closed()
    } else {
        let moved = t.source_at(spliced.offset);
        match spliced.result {
            Ok(n) => if n == 0 {
                moved.fill_closed()
            } else {
                moved.plus_read(n as nat)
            },
            Err(_) => moved,
        }
    }
}

/// The books after an attempt to drain the pipe.
pub open spec fn destination_tried<F>(t: TransferView<F>, spliced: Spliced) -> TransferView<F> {
    if !wants_destination(t) {
        t
    } else {
        let moved = t.destination_at(spliced.offset);
        match spliced.result {
            Ok(n) => moved.plus_written(n as nat),
            Err(_) => moved,
        }
    }
}

impl<R, W, F> Splicer<R, W, F> {
    /// A transfer between two descriptors that are not files.
    ///
    /// `pipe` is the pipe to use, or why it could not be made.
    pub fn new(pipe: Result<Pipe<F>, IoError>) -> (ctx: Result<Self, IoError>) where
        R: IsNotFile,
        W: IsNotFile,

        ensures
            match pipe {
                Ok(p) => ctx matches Ok(c) && c@ == TransferView::fresh(p@),
                Err(e) => ctx == Err::<Self, IoError>(e),
            },
    {
        match pipe {
            Ok(pipe) => Ok(
                Splicer { transfer: Transfer::new(pipe), r: PhantomData, w: PhantomData },
            ),
            Err(e) => Err(e),
        }
    }

    /// A transfer from a file of `f_len` bytes.
    ///
    /// Without `f_offset_start` it is read from the beginning, without
    /// `f_offset_end` to the end. `pipe` is the pipe to use, or why it could
    /// not be made.
    pub fn with_input_file(
        f_len: u64,
        f_offset_start: Option<u64>,
        f_offset_end: Option<u64>,
        pipe: Result<Pipe<F>, IoError>,
    ) -> (ctx: Result<Self, IoError>) where R: IsFile, W: IsNotFile
        ensures
            ctx is Ok <==> valid_range(f_len, f_offset_start, f_offset_end) && range_len(
                f_len,
                f_offset_start,
                f_offset_end,
            ) <= usize::MAX && pipe is Ok,
            match ctx {
                Ok(c) => pipe matches Ok(p) && c@ == TransferView::of_file(
                    p@,
                    Offset::In(range_start(f_offset_start)),
                    f_len,
                    f_offset_start,
                    f_offset_end,
                ),
                Err(e) => is_file_setup_error(
                    e,
                    f_len,
                    f_offset_start,
                    f_offset_end,
                    "file size too large"@,
                    pipe,
                ),
            },
    {
        match Transfer::of_file(
            true,
            f_len,
            f_offset_start,
            f_offset_end,
            "file size too large",
            pipe,
        ) {
            Ok(transfer) => Ok(Splicer { transfer, r: PhantomData, w: PhantomData }),
            Err(e) => Err(e),
        }
    }

    /// A transfer into a file of `f_len` bytes.
    ///
    /// Without `f_offset_start` it is written from the beginning, without
    /// `f_offset_end` to the end. `pipe` is the pipe to use, or why it could
    /// not be made.
    pub fn with_output_file(
        f_len: u64,
        f_offset_start: Option<u64>,
        f_offset_end: Option<u64>,
        pipe: Result<Pipe<F>, IoError>,
    ) -> (ctx: Result<Self, IoError>) where R: IsNotFile, W: IsFile
        ensures
            ctx is Ok <==> valid_range(f_len, f_offset_start, f_offset_end) && range_len(
                f_len,
                f_offset_start,
                f_offset_end,
            ) <= usize::MAX && pipe is Ok,
            match ctx {
                Ok(c) => pipe matches Ok(p) && c@ == TransferView::of_file(
                    p@,
                    Offset::Out(range_start(f_offset_start)),
                    f_len,
                    f_offset_start,
                    f_offset_end,
                ),
                Err(e) => is_file_setup_error(
                    e,
                    f_len,
                    f_offset_start,
                    f_offset_end,
                    "file size too large"@,
                    pipe,
                ),
            },
    {
        match Transfer::of_file(
            false,
            f_len,
            f_offset_start,
            f_offset_end,
            "file size too large",
            pipe,
        ) {
            Ok(transfer) => Ok(Splicer { transfer, r: PhantomData, w: PhantomData }),
            Err(e) => Err(e),
        }
    }

    /// Sets the target number of bytes to copy from `R` to `W`.
    ///
    /// If `R` or `W` is a file, use [`Splicer::with_input_file`] or
    /// [`Splicer::with_output_file`] instead.
    pub fn with_target_len(self, size_to_splice: usize) -> (ctx: Self) where
        R: IsNotFile,
        W: IsNotFile,

        ensures
            ctx@ == (TransferView { target: size_to_splice as nat, ..self@ }),
    {
        Splicer {
            transfer: self.transfer.with_target_len(size_to_splice),
            r: PhantomData,
            w: PhantomData,
        }
    }

    /// Takes over the size of the resized pipe, see [`Pipe::with_pipe_size`].
    pub fn with_pipe_size(self, resized: Result<usize, IoError>) -> (ctx: Result<Self, IoError>)
        ensures
            ctx is Ok <==> self@.fill_open() && (resized matches Ok(n) && n > 0),
            match ctx {
                Ok(c) => resized matches Ok(n) && c@ == (TransferView {
                    pipe: PipeView { size: n as nat, ..self@.pipe },
                    ..self@
                }),
                Err(e) => is_resize_error(e, self@, resized),
            },
    {
        match self.transfer.with_pipe_size(resized) {
            Ok(transfer) => Ok(Splicer { transfer, r: PhantomData, w: PhantomData }),
            Err(e) => Err(e),
        }
    }
}

impl<R, W, F> Splicer<R, W, F> {
    /// The pipe in between.
    pub fn pipe(&self) -> (pipe: &Pipe<F>)
        ensures
            pipe@ == self@.pipe,
    {
        self.transfer.pipe()
    }

    /// Bytes that have been read from `R`.
    pub fn bytes_read(&self) -> (bytes: usize)
        ensures
            bytes == self@.read,
    {
        self.transfer.bytes_read()
    }

    /// Bytes that have been written to `W`.
    pub fn bytes_written(&self) -> (bytes: usize)
        ensures
            bytes == self@.written,
    {
        self.transfer.bytes_written()
    }

    /// The size of the pipe in bytes.
    pub fn pipe_size(&self) -> (size: NonZeroSize)
        ensures
            size@ == self@.pipe.size,
    {
        self.transfer.pipe_size()
    }

    /// Whether the source has nothing more to give and everything that it gave
    /// has been delivered.
    pub fn is_finished(&self) -> (finished: bool)
        ensures
            finished == (!self@.fill_open() && self@.buffered() == 0),
    {
        self.transfer.pipe().is_fill_done() && self.transfer.bytes_read()
            == self.transfer.bytes_written()
    }

    /// The report of the sending half: what has been written to `W`.
    pub fn traffic_client_tx(&self, error: Option<IoError>) -> (report: TransferReport)
        ensures
            report.tx == self@.written,
            report.rx == 0,
            report.error == error,
    {
        self.transfer.traffic_client_tx(error)
    }

    /// The report of the receiving half: what has been read from `R`.
    pub fn traffic_client_rx(&self, error: Option<IoError>) -> (report: TransferReport)
        ensures
            report.tx == 0,
            report.rx == self@.read,
            report.error == error,
    {
        self.transfer.traffic_client_rx(error)
    }

    /// The call that the next [`Splicer::try_splice_from_source`] is about,
    /// from `R` into the fill side of the pipe, if there is one to make.
    pub fn source_request(&self) -> (request: Option<SpliceRequest>)
        ensures
            request == (if wants_source(self@) {
                Some(
                    SpliceRequest {
                        offset: self@.offset.source(),
                        max_len: one_call(self@.remaining()) as usize,
                    },
                )
            } else {
                None
            }),
            request matches Some(r) ==> 0 < r.max_len == one_call(self@.remaining()),
    {
        if self.transfer.pipe().is_fill_done() {
            return None;
        }
        match self.transfer.size_to_splice().checked_sub(self.transfer.bytes_read()) {
            Some(rest) => if rest > 0 {
                Some(
                    SpliceRequest {
                        offset: self.transfer.source_offset(),
                        max_len: one_call_len(rest),
                    },
                )
            } else {
                None
            },
            None => None,
        }
    }

    /// The call that the next [`Splicer::try_splice_to_dest`] is about, from
    /// the drain side of the pipe to `W`, if there is one to make.
    pub fn dest_request(&self) -> (request: Option<SpliceRequest>)
        ensures
            request == (if wants_destination(self@) {
                Some(
                    SpliceRequest {
                        offset: self@.offset.destination(),
                        max_len: one_call(self@.buffered()) as usize,
                    },
                )
            } else {
                None
            }),
            request matches Some(r) ==> 0 < r.max_len == one_call(self@.buffered()),
    {
        if self.transfer.pipe().is_drain_done() {
            return None;
        }
        match self.transfer.bytes_read().checked_sub(self.transfer.bytes_written()) {
            Some(rest) => if rest > 0 {
                Some(
                    SpliceRequest {
                        offset: self.transfer.destination_offset(),
                        max_len: one_call_len(rest),
                    },
                )
            } else {
                None
            },
            None => None,
        }
    }

    /// Moves data from the source into the pipe: takes in what came of
    /// [`Splicer::source_request`].
    ///
    /// Closes the fill side of the pipe when the target byte count has been
    /// reached or the source has come to its end.
    pub fn try_splice_from_source(&mut self, spliced: Spliced) -> (outcome: Result<(), IoError>)
        requires
            wants_source(old(self)@) ==> (spliced.result matches Ok(n) ==> old(self)@.read + n
                <= usize::MAX),
        ensures
            final(self)@ == source_tried(old(self)@, spliced),
            match outcome {
                Ok(_) => !wants_source(old(self)@) || spliced.result is Ok,
                Err(e) => wants_source(old(self)@) && spliced.result == Err::<usize, IoError>(e),
            },
    {
        if self.transfer.pipe().is_fill_done() {
            return Ok(());
        }
        if self.source_request().is_none() {
            self.transfer.set_fill_done();
            return Ok(());
        }
        self.transfer.set_source_offset(spliced.offset);
        match spliced.result {
            Ok(n) => {
                if n == 0 {
                    self.transfer.set_fill_done();
                } else {
                    self.transfer.add_read(n);
                }
                Ok(())
            },
            Err(e) => Err(e),
        }
    }

    /// Moves data from the pipe to the destination: takes in what came of
    /// [`Splicer::dest_request`].
    ///
    /// The pipe holds bytes when there is such a request, so a destination that
    /// takes none of them is an error.
    pub fn try_splice_to_dest(&mut self, spliced: Spliced) -> (outcome: Result<(), IoError>)
        requires
            wants_destination(old(self)@) ==> (spliced.result matches Ok(n) ==> old(self)@.written
                + n <= usize::MAX),
        ensures
            final(self)@ == destination_tried(old(self)@, spliced),
            match outcome {
                Ok(_) => !wants_destination(old(self)@) || (spliced.result matches Ok(n) && n > 0),
                Err(e) => wants_destination(old(self)@) && match spliced.result {
                    Ok(n) => n == 0 && e.is_own(ErrorKind::WriteZero, "write zero"@),
                    Err(cause) => e == cause,
                },
            },
    {
        if self.dest_request().is_none() {
            return Ok(());
        }
        self.transfer.set_destination_offset(spliced.offset);
        match spliced.result {
            Ok(n) => {
                if n == 0 {
                    return Err(IoError::new(ErrorKind::WriteZero, "write zero"));
                }
                self.transfer.add_written(n);
                Ok(())
            },
            Err(e) => Err(e),
        }
    }
}

} // verus!
