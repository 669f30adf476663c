//! The state machine that drives a transfer, [`SpliceIo`], and two of them
//! back to back, [`SpliceBidiIo`].
//!
//! A poll of a transfer is a loop: [`SpliceIo::next_action`] says what to do,
//! the caller does it and reports the event to [`SpliceIo::poll_execute`],
//! whose answer says whether to go on with the loop.

use crate::error::{ErrorKind, IoError};
use crate::splice::SpliceCtx;
use crate::transfer::{Attempt, SpliceRequest, Spliced, Step, TransferView};
use crate::transfer_report::TransferReport;
use vstd::prelude::*;

verus! {

/// Where a transfer is.
#[derive(Debug)]
pub enum TransferState {
    /// Moving data from the source into the pipe.
    Fill,
    /// Moving data from the pipe to the destination.
    Drain,
    /// Flushing buffered data of the destination. This comes after each try at
    /// it that succeeded, unless the transfer is over then.
    Flushing,
    /// The transfer has terminated, and the destination is to be shut down
    /// gracefully. If there was an error it will be returned.
    Finished { error: Option<IoError> },
}

impl TransferState {
    /// Terminated without an error.
    pub fn finished() -> (state: Self)
        ensures
            state == (TransferState::Finished { error: None }),
    {
        TransferState::Finished { error: None }
    }

    /// Terminated by an error.
    pub fn faulted(error: IoError) -> (state: Self)
        ensures
            state == (TransferState::Finished { error: Some(error) }),
    {
        TransferState::Finished { error: Some(error) }
    }
}

/// What to do next.
#[derive(Clone, Copy, Debug, PartialEq, Eq)]
pub enum Action {
    /// Wait until the source is ready, then make this call from it into the
    /// fill side of the pipe.
    Fill(Option<SpliceRequest>),
    /// Wait until the destination is ready, then make this call from the drain
    /// side of the pipe into it.
    Drain(Option<SpliceRequest>),
    /// Flush the destination.
    Flush,
    /// Shut the destination down.
    Shutdown,
}

/// What came of an [`Action`].
#[derive(Debug)]
pub enum Event {
    /// [`Action::Fill`] or [`Action::Drain`] was tried.
    Attempted(Attempt),
    /// [`Action::Flush`] or [`Action::Shutdown`] has to wait; the task is woken
    /// when it is to be tried again.
    Waiting,
    /// [`Action::Flush`] or [`Action::Shutdown`] is through.
    Completed(Result<(), IoError>),
}

/// What a poll returns to the scheduler.
#[derive(Debug)]
pub enum Poll {
    /// Not over yet; the task is woken when there is something to do.
    Pending,
    /// Over.
    Ready(Result<(), IoError>),
}

/// A transfer and where it is.
pub struct SpliceIoView<F> {
    pub ctx: TransferView<F>,
    pub state: TransferState,
}

impl<F> SpliceIoView<F> {
    /// Bytes are delivered only after they were taken, and never more of them
    /// are taken than asked for.
    pub open spec fn counts_ok(self) -> bool {
        self.ctx.written <= self.ctx.read <= self.ctx.target <= usize::MAX
    }

    /// The invariant of a transfer that is not over.
    ///
    /// Its counts are in order. The source is only turned to while the pipe
    /// is empty and can be filled. Bytes in the pipe can be drained, and the
    /// source is done exactly when an attempt to fill left the pipe empty. The
    /// destination is only flushed while both sides are open. A transfer that
    /// ends well has delivered everything and closed the pipe.
    pub open spec fn wf(self) -> bool {
        &&& self.counts_ok()
        &&& match self.state {
            TransferState::Fill => {
                &&& self.ctx.fill_open()
                &&& self.ctx.drain_open()
                &&& self.ctx.buffered() == 0
            },
            TransferState::Flushing => self.ctx.fill_open() && self.ctx.drain_open(),
            TransferState::Drain => {
                &&& self.ctx.drain_open()
                &&& self.ctx.fill_open() <==> self.ctx.buffered() > 0
            },
            TransferState::Finished { error } => error is None ==> {
                &&& !self.ctx.fill_open()
                &&& !self.ctx.drain_open()
                &&& self.ctx.buffered() == 0
            },
        }
    }

    /// Whether the transfer can be polled. One that is over can be, too: it only
    /// shuts its destination down once more.
    pub open spec fn pollable(self) -> bool {
        self.counts_ok() && (self.wf() || self.state is Finished)
    }

    /// What to do next.
    pub open spec fn action(self) -> Action {
        match self.state {
            TransferState::Fill => Action::Fill(self.ctx.fill_request()),
            TransferState::Drain => Action::Drain(self.ctx.drain_request()),
            TransferState::Flushing => Action::Flush,
            TransferState::Finished { .. } => Action::Shutdown,
        }
    }

    /// Whether `event` can come of what there is to do next: it is of the right
    /// sort, and no call has moved more bytes than were wanted or there.
    pub open spec fn admits(self, event: Event) -> bool {
        match self.state {
            TransferState::Fill => event matches Event::Attempted(a) && moved_at_most(
                a,
                self.ctx.remaining(),
            ),
            TransferState::Drain => event matches Event::Attempted(a) && moved_at_most(
                a,
                self.ctx.buffered(),
            ),
            TransferState::Flushing | TransferState::Finished { .. } => !(event is Attempted),
        }
    }

    /// The same transfer in another state.
    pub open spec fn in_state(self, state: TransferState) -> SpliceIoView<F> {
        SpliceIoView { state, ..self }
    }

    /// The error that is still to be returned, if there is one.
    pub open spec fn held(self) -> Option<IoError> {
        match self.state {
            TransferState::Finished { error } => error,
            _ => None,
        }
    }

    /// The transfer with the file offset as a call that failed left it.
    pub open spec fn offset_noted(self, offset: Option<u64>) -> SpliceIoView<F> {
        match self.state {
            TransferState::Fill => SpliceIoView { ctx: self.ctx.source_at(offset), ..self },
            TransferState::Drain => SpliceIoView { ctx: self.ctx.destination_at(offset), ..self },
            _ => self,
        }
    }

    /// The transfer after a call that failed.
    pub open spec fn after_failure(self, offset: Option<u64>, error: IoError) -> SpliceIoView<F> {
        if error.kind == ErrorKind::WouldBlock {
            self.offset_noted(offset)
        } else {
            self.offset_noted(offset).in_state(TransferState::Finished { error: Some(error) })
        }
    }

    /// The transfer after a try at the source.
    pub open spec fn after_fill(self, spliced: Spliced) -> SpliceIoView<F> {
        match spliced.result {
            Ok(_) => SpliceIoView {
                ctx: self.ctx.after_fill(spliced).0,
                state: TransferState::Drain,
            },
            Err(e) => self.after_failure(spliced.offset, e),
        }
    }

    /// The transfer after a try at the destination: it is over if there is
    /// nothing more to come and nothing left, else the destination is flushed.
    pub open spec fn after_drain(self, spliced: Spliced) -> SpliceIoView<F> {
        match spliced.result {
            Ok(_) => {
                let ctx = self.ctx.after_drain(spliced).0;
                SpliceIoView {
                    ctx,
                    state: if !ctx.fill_open() && ctx.buffered() == 0 {
                        TransferState::Finished { error: None }
                    } else {
                        TransferState::Flushing
                    },
                }
            },
            Err(e) => self.after_failure(spliced.offset, e),
        }
    }

    /// Whose turn it is once the destination has been flushed. While the pipe
    /// holds bytes it is the destination's: the source may never become ready
    /// again.
    pub open spec fn after_flush(self) -> SpliceIoView<F> {
        self.in_state(
            if self.ctx.buffered() > 0 {
                TransferState::Drain
            } else {
                TransferState::Fill
            },
        )
    }

    /// The transfer after an event, and how to go on.
    ///
    /// To shut the destination down is best effort: an error that ended the
    /// transfer is returned whatever came of it.
    pub open spec fn step(self, event: Event) -> (SpliceIoView<F>, Step<()>) {
        match event {
            Event::Attempted(Attempt::NotReady) => (self, Step::Pending),
            Event::Attempted(Attempt::ReadinessFailed(e)) => (self, Step::Ready(Err(e))),
            Event::Attempted(Attempt::Tried(spliced)) => match self.state {
                TransferState::Fill => (self.after_fill(spliced), Step::Again),
                _ => (self.after_drain(spliced), Step::Again),
            },
            Event::Waiting => (self, Step::Pending),
            Event::Completed(result) => match self.state {
                TransferState::Finished { error } => match (result, error) {
                    (_, Some(e)) => (
                        self.in_state(TransferState::Finished { error: None }),
                        Step::Ready(Err(e)),
                    ),
                    (Err(e), None) => (self, Step::Ready(Err(e))),
                    (Ok(_), None) => (self, Step::Ready(Ok(()))),
                },
                _ => match result {
                    Ok(_) => (self.after_flush(), Step::Again),
                    Err(e) => (
                        self.in_state(TransferState::Finished { error: Some(e) }),
                        Step::Again,
                    ),
                },
            },
        }
    }
}

/// Whether no more than `limit` bytes were moved.
pub open spec fn moved_at_most(attempt: Attempt, limit: int) -> bool {
    attempt matches Attempt::Tried(spliced) ==> (spliced.result matches Ok(n) ==> n <= limit)
}

/// Zero-copy unidirectional I/O with `splice(2)`.
///
/// For the bidirectional version, see [`SpliceBidiIo`].
#[derive(Debug)]
pub struct SpliceIo<R, W, F> {
    splicer: SpliceCtx<R, W, F>,
    state: TransferState,
}

impl<R, W, F> View for SpliceIo<R, W, F> {
    type V = SpliceIoView<F>;

    closed spec fn view(&self) -> SpliceIoView<F> {
        SpliceIoView { ctx: self.splicer@, state: self.state }
    }
}

impl<R, W, F> SpliceIo<R, W, F> {
    /// A transfer that is about to turn to its source for the first time.
    pub closed spec fn starting(splicer: SpliceCtx<R, W, F>) -> Self {
        SpliceIo { splicer, state: TransferState::Fill }
    }
}

impl<R, W, F> core::convert::From<SpliceCtx<R, W, F>> for SpliceIo<R, W, F> {
    fn from(splicer: SpliceCtx<R, W, F>) -> (io: Self)
        ensures
            io@ == (SpliceIoView { ctx: splicer@, state: TransferState::Fill }),
    {
        SpliceIo { splicer, state: TransferState::Fill }
    }
}

impl<R, W, F> vstd::std_specs::convert::FromSpecImpl<SpliceCtx<R, W, F>> for SpliceIo<R, W, F> {
    open spec fn obeys_from_spec() -> bool {
        true
    }

    open spec fn from_spec(splicer: SpliceCtx<R, W, F>) -> Self {
        SpliceIo::starting(splicer)
    }
}

impl<R, W, F> core::ops::Deref for SpliceIo<R, W, F> {
    type Target = SpliceCtx<R, W, F>;

    fn deref(&self) -> (ctx: &SpliceCtx<R, W, F>)
        ensures
            ctx@ == self@.ctx,
    {
        &self.splicer
    }
}

impl<R, W, F> SpliceIo<R, W, F> {
    /// The name of the current state.
    pub fn state_name(&self) -> (name: &'static str)
        ensures
            name@ == (match self@.state {
                TransferState::Fill => "Fill"@,
                TransferState::Drain => "Drain"@,
                TransferState::Flushing => "Flushing"@,
                TransferState::Finished { .. } => "Finished"@,
            }),
    {
        match self.state {
            TransferState::Fill => "Fill",
            TransferState::Drain => "Drain",
            TransferState::Flushing => "Flushing",
            TransferState::Finished { .. } => "Finished",
        }
    }

    /// The current state.
    pub fn state(&self) -> (state: &TransferState)
        ensures
            *state == self@.state,
    {
        &self.state
    }

    /// What to do next.
    pub fn next_action(&self) -> (action: Action)
        requires
            self@.pollable(),
        ensures
            action == self@.action(),
    {
        match self.state {
            TransferState::Fill => Action::Fill(self.splicer.source_request()),
            TransferState::Drain => Action::Drain(self.splicer.dest_request()),
            TransferState::Flushing => Action::Flush,
            TransferState::Finished { .. } => Action::Shutdown,
        }
    }

    /// Takes in what came of [`SpliceIo::next_action`], and says how to go on.
    ///
    /// A transfer that is ready is over: an error is returned only once.
    pub fn poll_execute(&mut self, event: Event) -> (step: Step<()>)
        requires
            old(self)@.pollable(),
            old(self)@.admits(event),
        ensures
            (final(self)@, step) == old(self)@.step(event),
            final(self)@.pollable(),
            old(self)@.wf() && !(step matches Step::Ready(Err(_))) ==> final(self)@.wf(),
    {
        match event {
            Event::Attempted(Attempt::NotReady) => Step::Pending,
            Event::Attempted(Attempt::ReadinessFailed(e)) => Step::Ready(Err(e)),
            Event::Attempted(Attempt::Tried(spliced)) => {
                match self.state {
                    TransferState::Fill => self.try_fill(spliced),
                    _ => self.try_drain(spliced),
                }
                Step::Again
            },
            Event::Waiting => Step::Pending,
            Event::Completed(result) => match &mut self.state {
                TransferState::Finished { error } => match error.take() {
                    Some(e) => Step::Ready(Err(e)),
                    None => match result {
                        Ok(()) => Step::Ready(Ok(())),
                        Err(e) => Step::Ready(Err(e)),
                    },
                },
                _ => {
                    self.state = match result {
                        Ok(()) => if self.splicer.pipe_has_data() {
                            TransferState::Drain
                        } else {
                            TransferState::Fill
                        },
                        Err(e) => TransferState::faulted(e),
                    };
                    Step::Again
                },
            },
        }
    }

    /// Takes in a try at the source. A call that would have had to wait is
    /// tried again; bytes that came in, or the end of the source, are for the
    /// destination next.
    fn try_fill(&mut self, spliced: Spliced)
        requires
            old(self)@.wf(),
            old(self)@.state is Fill,
            spliced.result matches Ok(n) ==> n <= old(self)@.ctx.remaining(),
        ensures
            final(self)@ == old(self)@.after_fill(spliced),
            final(self)@.wf(),
    {
        match spliced.result {
            Ok(_) => {
                let outcome = self.splicer.try_splice_from_source(spliced);
                self.state = match outcome {
                    Ok(_) => TransferState::Drain,
                    Err(e) => TransferState::faulted(e),
                };
            },
            Err(e) => {
                self.splicer.set_source_offset(spliced.offset);
                if !e.would_block() {
                    self.state = TransferState::faulted(e);
                }
            },
        }
    }

    /// Takes in a try at the destination. A call that would have had to wait is
    /// tried again; after any other the destination is flushed, unless it has
    /// got everything.
    fn try_drain(&mut self, spliced: Spliced)
        requires
            old(self)@.wf(),
            old(self)@.state is Drain,
            spliced.result matches Ok(n) ==> n <= old(self)@.ctx.buffered(),
        ensures
            final(self)@ == old(self)@.after_drain(spliced),
            final(self)@.wf(),
    {
        match spliced.result {
            Ok(_) => {
                let outcome = self.splicer.try_splice_to_dest(spliced);
                self.state = match outcome {
                    Ok(_) => if self.splicer.is_finished() {
                        TransferState::finished()
                    } else {
                        TransferState::Flushing
                    },
                    Err(e) => TransferState::faulted(e),
                };
            },
            Err(e) => {
                self.splicer.set_destination_offset(spliced.offset);
                if !e.would_block() {
                    self.state = TransferState::faulted(e);
                }
            },
        }
    }

    /// The report of a transfer that is over with `result`.
    pub fn execute(self, result: Result<(), IoError>) -> (report: TransferReport)
        ensures
            report.tx == self@.ctx.written,
            report.rx == 0,
            report.error == (match result {
                Ok(_) => None,
                Err(e) => Some(e),
            }),
    {
        self.splicer.traffic_client_tx(result.err())
    }

    /// Has the next poll return `error`, unless there is one already that is
    /// still to be returned.
    fn fault(&mut self, error: IoError)
        ensures
            final(self)@ == (if old(self)@.held() is Some {
                old(self)@
            } else {
                old(self)@.in_state(TransferState::Finished { error: Some(error) })
            }),
    {
        if !matches!(self.state, TransferState::Finished { error: Some(_) }) {
            self.state = TransferState::faulted(error);
        }
    }
}

/// Bidirectional splice I/O, combining two [`SpliceIo`] instances.
#[derive(Debug)]
pub struct SpliceBidiIo<SL, SR, F> {
    /// Splice I/O instance, from `SL` to `SR`.
    pub io_sl2sr: SpliceIo<SL, SR, F>,
    /// Splice I/O instance, from `SR` to `SL`.
    pub io_sr2sl: SpliceIo<SR, SL, F>,
}

/// What a poll of both directions returns: it is over when both are, and then
/// an error of the first direction comes before one of the second.
pub open spec fn both(first: Poll, second: Poll) -> Poll {
    match (first, second) {
        (Poll::Pending, _) => Poll::Pending,
        (_, Poll::Pending) => Poll::Pending,
        (Poll::Ready(Ok(_)), Poll::Ready(Ok(_))) => Poll::Ready(Ok(())),
        (Poll::Ready(Err(e)), _) => Poll::Ready(Err(e)),
        (_, Poll::Ready(Err(e))) => Poll::Ready(Err(e)),
    }
}

/// A direction after a poll of both, given what its own poll returned. An
/// error that cannot be returned yet is kept, unless one is already.
pub open spec fn kept<F>(io: SpliceIoView<F>, own: Poll, other: Poll) -> SpliceIoView<F> {
    match (own, other) {
        (Poll::Ready(Err(e)), Poll::Pending) => if io.held() is Some {
            io
        } else {
            io.in_state(TransferState::Finished { error: Some(e) })
        },
        _ => io,
    }
}

/// Combines what a poll of each of two directions returned.
///
/// While one direction is pending, so are both together. The other one is then
/// polled again too, so an error that ended it is handed back to it, to be
/// returned once more.
pub fn poll_both<SL, SR, F>(
    io_sl2sr: &mut SpliceIo<SL, SR, F>,
    io_sr2sl: &mut SpliceIo<SR, SL, F>,
    sl2sr: Poll,
    sr2sl: Poll,
) -> (poll: Poll)
    ensures
        poll == both(sl2sr, sr2sl),
        final(io_sl2sr)@ == kept(old(io_sl2sr)@, sl2sr, sr2sl),
        final(io_sr2sl)@ == kept(old(io_sr2sl)@, sr2sl, sl2sr),
{
    match (sl2sr, sr2sl) {
        (Poll::Pending, Poll::Ready(Err(e))) => {
            io_sr2sl.fault(e);
            Poll::Pending
        },
        (Poll::Ready(Err(e)), Poll::Pending) => {
            io_sl2sr.fault(e);
            Poll::Pending
        },
        (Poll::Pending, _) | (_, Poll::Pending) => Poll::Pending,
        (Poll::Ready(Ok(())), Poll::Ready(Ok(()))) => Poll::Ready(Ok(())),
        (Poll::Ready(Err(e)), _) | (_, Poll::Ready(Err(e))) => Poll::Ready(Err(e)),
    }
}

impl<SL, SR, F> SpliceBidiIo<SL, SR, F> {
    /// Combines what a poll of each direction returned, see [`poll_both`].
    pub fn poll_execute(&mut self, sl2sr: Poll, sr2sl: Poll) -> (poll: Poll)
        ensures
            poll == both(sl2sr, sr2sl),
            final(self).io_sl2sr@ == kept(old(self).io_sl2sr@, sl2sr, sr2sl),
            final(self).io_sr2sl@ == kept(old(self).io_sr2sl@, sr2sl, sl2sr),
    {
        poll_both(&mut self.io_sl2sr, &mut self.io_sr2sl, sl2sr, sr2sl)
    }

    /// The report of a transfer that is over with `result`.
    pub fn execute(self, result: Result<(), IoError>) -> (report: TransferReport)
        ensures
            report.tx == self.io_sl2sr@.ctx.written,
            report.rx == self.io_sr2sl@.ctx.read,
            report.error == (match result {
                Ok(_) => None,
                Err(e) => Some(e),
            }),
    {
        self.io_sl2sr.splicer.traffic_client_tx(result.err()).merge(
            self.io_sr2sl.splicer.traffic_client_rx(None),
        )
    }
}

} // verus!
