//! What holds of transfers as a whole, over any sequence of events.

use crate::context::SpliceIoCtxView;
use crate::error::{ErrorKind, IoError};
use crate::io::{both, kept, moved_at_most, Action, Event, Poll, SpliceIoView, TransferState};
use crate::offset::{range_end, range_len, range_start, valid_range, Offset};
use crate::pipe::{PipeView, MAXIMUM_PIPE_SIZE};
use crate::splicer::{destination_tried, source_tried, wants_destination, wants_source};
use crate::transfer::{one_call, Attempt, Spliced, Step, TransferView};
use vstd::prelude::*;

verus! {

/// The transfer after `events`, and the last answer.
pub open spec fn reached<F>(io: SpliceIoView<F>, events: Seq<Event>) -> (
    SpliceIoView<F>,
    Step<()>,
)
    decreases events.len(),
{
    if events.len() == 0 {
        (io, Step::Again)
    } else {
        reached(io, events.drop_last()).0.step(events.last())
    }
}

/// Whether `events` can happen one after the other: each of them can come of
/// what there was to do, and the transfer was not over before.
pub open spec fn can_happen<F>(io: SpliceIoView<F>, events: Seq<Event>) -> bool
    decreases events.len(),
{
    events.len() > 0 ==> {
        &&& can_happen(io, events.drop_last())
        &&& !(reached(io, events.drop_last()).1 is Ready)
        &&& reached(io, events.drop_last()).0.admits(events.last())
    }
}

/// Whether the transfer is about to begin.
pub open spec fn is_starting<F>(io: SpliceIoView<F>) -> bool {
    &&& io.ctx.is_unstarted()
    &&& io.ctx.target <= usize::MAX
    &&& io.state is Fill
}

/// The number of bytes that an event moved.
pub open spec fn moved(event: Event) -> nat {
    match event {
        Event::Attempted(Attempt::Tried(spliced)) => match spliced.result {
            Ok(n) => n as nat,
            Err(_) => 0,
        },
        _ => 0,
    }
}

/// The number of bytes that `events` moved from the source into the pipe.
pub open spec fn taken<F>(io: SpliceIoView<F>, events: Seq<Event>) -> nat
    decreases events.len(),
{
    if events.len() == 0 {
        0
    } else {
        let before = events.drop_last();
        taken(io, before) + if reached(io, before).0.state is Fill {
            moved(events.last())
        } else {
            0
        }
    }
}

/// The number of bytes that `events` moved from the pipe to the destination.
pub open spec fn delivered<F>(io: SpliceIoView<F>, events: Seq<Event>) -> nat
    decreases events.len(),
{
    if events.len() == 0 {
        0
    } else {
        let before = events.drop_last();
        delivered(io, before) + if reached(io, before).0.state is Drain {
            moved(events.last())
        } else {
            0
        }
    }
}

/// Whether the source was asked for bytes and had none left.
pub open spec fn source_ended<F>(io: SpliceIoView<F>, events: Seq<Event>) -> bool
    decreases events.len(),
{
    events.len() > 0 && {
        let before = events.drop_last();
        ||| source_ended(io, before)
        ||| {
            &&& reached(io, before).0.state is Fill
            &&& reached(io, before).0.ctx.remaining() > 0
            &&& events.last() matches Event::Attempted(Attempt::Tried(spliced))
            &&& spliced.result matches Ok(n)
            &&& n == 0
        }
    }
}

/// Whether bytes were handed to the destination since it was last flushed, where
/// `before` says whether there were such bytes before `events`.
pub open spec fn unflushed<F>(io: SpliceIoView<F>, before: bool, events: Seq<Event>) -> bool
    decreases events.len(),
{
    if events.len() == 0 {
        before
    } else {
        let earlier = unflushed(io, before, events.drop_last());
        match reached(io, events.drop_last()).0.state {
            TransferState::Drain => earlier || moved(events.last()) > 0,
            TransferState::Flushing => earlier && !(events.last() matches Event::Completed(Ok(_))),
            _ => earlier,
        }
    }
}

/// The error of an event that is a failure for good. A call that would have had
/// to wait is none.
pub open spec fn failure(event: Event) -> Option<IoError> {
    match event {
        Event::Attempted(Attempt::ReadinessFailed(e)) => Some(e),
        Event::Attempted(Attempt::Tried(spliced)) => match spliced.result {
            Err(e) => if e.kind == ErrorKind::WouldBlock {
                None
            } else {
                Some(e)
            },
            Ok(_) => None,
        },
        Event::Completed(Err(e)) => Some(e),
        _ => None,
    }
}

/// The first of two errors that there is.
pub open spec fn earlier_error(first: Option<IoError>, second: Option<IoError>) -> Option<IoError> {
    if first is Some {
        first
    } else {
        second
    }
}

/// The first failure among `events`.
pub open spec fn first_failure(events: Seq<Event>) -> Option<IoError>
    decreases events.len(),
{
    if events.len() == 0 {
        None
    } else {
        earlier_error(first_failure(events.drop_last()), failure(events.last()))
    }
}

/// What is returned where `error` is what went wrong.
pub open spec fn outcome(error: Option<IoError>) -> Result<(), IoError> {
    match error {
        Some(e) => Err(e),
        None => Ok(()),
    }
}

/// A transfer that is about to begin is in order.
pub proof fn starting_is_well_formed<F>(io: SpliceIoView<F>)
    requires
        is_starting(io),
    ensures
        io.wf(),
{
}

/// No event breaks the invariant of a transfer that is not over. Where an event
/// ends it with an error, the counts are still in order.
pub proof fn step_keeps_invariant<F>(io: SpliceIoView<F>, event: Event)
    requires
        io.wf(),
        io.admits(event),
    ensures
        io.step(event).0.pollable(),
        !(io.step(event).1 matches Step::Ready(Err(_))) ==> io.step(event).0.wf(),
{
}

/// The invariant holds after any events that can happen, until the transfer is
/// over with an error; the counts are in order even then.
pub proof fn run_keeps_invariant<F>(io: SpliceIoView<F>, events: Seq<Event>)
    requires
        is_starting(io),
        can_happen(io, events),
    ensures
        reached(io, events).0.counts_ok(),
        !(reached(io, events).1 matches Step::Ready(Err(_))) ==> reached(io, events).0.wf(),
    decreases events.len(),
{
    if events.len() > 0 {
        run_keeps_invariant(io, events.drop_last());
        step_keeps_invariant(reached(io, events.drop_last()).0, events.last());
    }
}

/// The counters are exact: at any time the transfer has read what was taken
/// from the source and written what was handed to the destination, and the
/// target is what it was.
pub proof fn counters_are_exact<F>(io: SpliceIoView<F>, events: Seq<Event>)
    requires
        is_starting(io),
        can_happen(io, events),
    ensures
        reached(io, events).0.ctx.read == taken(io, events),
        reached(io, events).0.ctx.written == delivered(io, events),
        reached(io, events).0.ctx.target == io.ctx.target,
    decreases events.len(),
{
    if events.len() > 0 {
        counters_are_exact(io, events.drop_last());
        run_keeps_invariant(io, events.drop_last());
    }
}

/// The destination never gets more bytes than the source gave, and the source
/// is never made to give more than the target.
pub proof fn nothing_is_made_up<F>(io: SpliceIoView<F>, events: Seq<Event>)
    requires
        is_starting(io),
        can_happen(io, events),
    ensures
        delivered(io, events) <= taken(io, events) <= io.ctx.target,
{
    counters_are_exact(io, events);
    run_keeps_invariant(io, events);
}

/// A transfer that ends well has delivered every byte that it took, and both
/// sides of its pipe are closed.
pub proof fn clean_end_delivers_everything<F>(io: SpliceIoView<F>, events: Seq<Event>)
    requires
        is_starting(io),
        can_happen(io, events),
        reached(io, events).1 matches Step::Ready(Ok(_)),
    ensures
        delivered(io, events) == taken(io, events),
        !reached(io, events).0.ctx.fill_open(),
        !reached(io, events).0.ctx.drain_open(),
{
    counters_are_exact(io, events);
    run_keeps_invariant(io, events);
    run_keeps_invariant(io, events.drop_last());
}

/// The two reports of a transfer that has ended well agree: what was read is
/// what was delivered.
pub proof fn clean_reports_agree<F>(io: SpliceIoView<F>)
    requires
        io.wf(),
        io.state matches TransferState::Finished { error: None },
    ensures
        io.ctx.read == io.ctx.written,
{
}

/// The fill side is closed only when the target has been reached or the source
/// has come to its end.
pub proof fn fill_closes_for_a_reason<F>(io: SpliceIoView<F>, events: Seq<Event>)
    requires
        is_starting(io),
        can_happen(io, events),
    ensures
        !reached(io, events).0.ctx.fill_open() ==> reached(io, events).0.ctx.read == io.ctx.target
            || source_ended(io, events),
    decreases events.len(),
{
    if events.len() > 0 {
        fill_closes_for_a_reason(io, events.drop_last());
        run_keeps_invariant(io, events.drop_last());
        counters_are_exact(io, events.drop_last());
    }
}

/// A transfer that ends well has moved exactly the target, or all that a
/// shorter source had.
pub proof fn clean_end_meets_target<F>(io: SpliceIoView<F>, events: Seq<Event>)
    requires
        is_starting(io),
        can_happen(io, events),
        reached(io, events).1 matches Step::Ready(Ok(_)),
    ensures
        delivered(io, events) == io.ctx.target || source_ended(io, events),
{
    clean_end_delivers_everything(io, events);
    fill_closes_for_a_reason(io, events);
    counters_are_exact(io, events);
}

/// Whether the destination has been flushed where it has to be: before either
/// end is turned to again, and when everything has been delivered.
pub open spec fn flushed_in_time<F>(io: SpliceIoView<F>, unflushed: bool) -> bool {
    unflushed ==> match io.state {
        TransferState::Fill | TransferState::Drain => false,
        TransferState::Flushing => true,
        TransferState::Finished { error } => error is Some,
    }
}

/// The destination has been flushed after the last byte whenever it, or the
/// source, is turned to again, and when the transfer is over without an error.
pub proof fn flushed_at_the_end<F>(io: SpliceIoView<F>, events: Seq<Event>)
    requires
        is_starting(io),
        can_happen(io, events),
    ensures
        !(reached(io, events).1 matches Step::Ready(Err(_))) ==> flushed_in_time(
            reached(io, events).0,
            unflushed(io, false, events),
        ),
        reached(io, events).1 matches Step::Ready(Ok(_)) ==> !unflushed(io, false, events),
    decreases events.len(),
{
    if events.len() > 0 {
        flushed_at_the_end(io, events.drop_last());
        run_keeps_invariant(io, events.drop_last());
    }
}

/// A transfer that waits while the pipe holds bytes waits for its destination,
/// never for its source, which may have nothing more to give.
pub proof fn waits_for_destination_while_pipe_has_data<F>(io: SpliceIoView<F>, event: Event)
    requires
        io.wf(),
        io.admits(event),
        io.step(event).1 is Pending,
        io.step(event).0.ctx.buffered() > 0,
    ensures
        match io.step(event).0.action() {
            Action::Drain(request) => request is Some,
            Action::Flush => true,
            Action::Shutdown => io.step(event).0.state matches TransferState::Finished {
                error: Some(_),
            },
            _ => false,
        },
{
}

/// A transfer never asks for a call on a side of the pipe that is closed, nor
/// for one that cannot move anything, nor for more bytes than are wanted or
/// there, nor for more than the kernel is ever asked to move at once.
pub proof fn requests_can_be_met<F>(io: SpliceIoView<F>)
    requires
        io.wf(),
    ensures
        match io.action() {
            Action::Fill(request) => {
                &&& io.ctx.fill_open()
                &&& io.ctx.buffered() == 0
                &&& request is None <==> io.ctx.remaining() == 0
                &&& request matches Some(r) ==> 0 < r.max_len == one_call(io.ctx.remaining())
                    <= MAXIMUM_PIPE_SIZE
            },
            Action::Drain(request) => {
                &&& io.ctx.drain_open()
                &&& request is None <==> io.ctx.buffered() == 0
                &&& request is None ==> !io.ctx.fill_open()
                &&& request matches Some(r) ==> 0 < r.max_len == one_call(io.ctx.buffered())
                    <= MAXIMUM_PIPE_SIZE
            },
            _ => true,
        },
{
}

/// Once the target has been reached, nothing more is asked of the source.
pub proof fn reached_target_asks_for_nothing<F>(io: SpliceIoView<F>)
    requires
        io.wf(),
        io.ctx.read == io.ctx.target,
        io.state is Fill,
    ensures
        io.action() == Action::Fill(None),
{
}

/// A call that would have had to wait changes nothing but the file offset, and
/// not even that where the call left it as it was.
pub proof fn would_block_changes_nothing<F>(io: SpliceIoView<F>, spliced: Spliced)
    requires
        io.wf(),
        io.state is Fill || io.state is Drain,
        spliced.result matches Err(e) && e.kind == ErrorKind::WouldBlock,
    ensures
        io.step(Event::Attempted(Attempt::Tried(spliced))) == (
            io.offset_noted(spliced.offset),
            Step::<()>::Again,
        ),
        spliced.offset == (if io.state is Fill {
            io.ctx.offset.source()
        } else {
            io.ctx.offset.destination()
        }) ==> io.offset_noted(spliced.offset) == io,
{
}

/// Any other error of a call or of a flush ends the transfer: the destination
/// is shut down next, and then that error is returned, whatever came of the
/// shutdown. The books stay what they are but for the file offset.
pub proof fn errors_are_returned<F>(
    io: SpliceIoView<F>,
    event: Event,
    error: IoError,
    shutdown: Result<(), IoError>,
)
    requires
        io.wf(),
        io.admits(event),
        !(io.state is Finished),
        !(event matches Event::Attempted(Attempt::ReadinessFailed(_))),
        failure(event) == Some(error),
    ensures
        io.step(event).1 is Again,
        io.step(event).0.ctx == (match event {
            Event::Attempted(Attempt::Tried(spliced)) => io.offset_noted(spliced.offset).ctx,
            _ => io.ctx,
        }),
        io.step(event).0.action() is Shutdown,
        io.step(event).0.step(Event::Completed(shutdown)).1 == Step::<()>::Ready(Err(error)),
{
}

/// What a run returns, or holds to return: an error from before it, or else
/// the first failure in it.
proof fn run_returns_first_error<F>(io: SpliceIoView<F>, events: Seq<Event>)
    requires
        can_happen(io, events),
    ensures
        match reached(io, events).1 {
            Step::Ready(result) => {
                &&& result == outcome(earlier_error(io.held(), first_failure(events)))
                &&& reached(io, events).0.held() is None
            },
            _ => reached(io, events).0.held() == earlier_error(io.held(), first_failure(events)),
        },
    decreases events.len(),
{
    if events.len() > 0 {
        run_returns_first_error(io, events.drop_last());
    }
}

/// What a transfer returns in the end is the first failure that it met, and
/// success exactly if it met none. Until then it holds that failure.
pub proof fn first_error_is_returned<F>(io: SpliceIoView<F>, events: Seq<Event>)
    requires
        is_starting(io),
        can_happen(io, events),
    ensures
        match reached(io, events).1 {
            Step::Ready(result) => result == outcome(first_failure(events)),
            _ => reached(io, events).0.held() == first_failure(events),
        },
{
    run_returns_first_error(io, events);
}

/// Counters only grow, closed sides stay closed, and the target and the size of
/// the pipe stay what they are.
pub proof fn steps_only_advance<F>(io: SpliceIoView<F>, event: Event)
    requires
        io.wf(),
        io.admits(event),
    ensures
        ({
            let after = io.step(event).0.ctx;
            &&& io.ctx.read <= after.read
            &&& io.ctx.written <= after.written
            &&& io.ctx.target == after.target
            &&& io.ctx.pipe.size == after.pipe.size
            &&& after.fill_open() ==> after.pipe.fill_fd == io.ctx.pipe.fill_fd
            &&& after.drain_open() ==> after.pipe.drain_fd == io.ctx.pipe.drain_fd
        }),
{
}

/// While one direction of two is pending, an error that ended the other one is
/// not lost: that direction can only wait on, with the error kept, or return
/// it again. An error that it held already comes first.
pub proof fn error_survives_other_direction<F>(io: SpliceIoView<F>, error: IoError, event: Event)
    requires
        io.counts_ok(),
        kept(io, Poll::Ready(Err(error)), Poll::Pending).admits(event),
    ensures
        ({
            let own = kept(io, Poll::Ready(Err(error)), Poll::Pending);
            let owed = earlier_error(io.held(), Some(error));
            &&& own.wf()
            &&& own.ctx == io.ctx
            &&& own.held() == owed
            &&& match own.step(event).1 {
                Step::Again => false,
                Step::Pending => own.step(event).0 == own,
                Step::Ready(result) => result == outcome(owed),
            }
        }),
{
}

/// What a poll returns whose last answer was `step`. A poll that could go on
/// may also give way to other tasks, to be polled again soon.
pub open spec fn returned(step: Step<()>) -> Poll {
    match step {
        Step::Again | Step::Pending => Poll::Pending,
        Step::Ready(result) => Poll::Ready(result),
    }
}

/// Whether `events` can happen in one poll: each of them can come of what there
/// was to do, and every answer but the last was to go on.
pub open spec fn can_be_polled<F>(io: SpliceIoView<F>, events: Seq<Event>) -> bool
    decreases events.len(),
{
    events.len() > 0 ==> {
        &&& can_be_polled(io, events.drop_last())
        &&& reached(io, events.drop_last()).1 is Again
        &&& reached(io, events.drop_last()).0.admits(events.last())
    }
}

/// A poll of both directions: the events of each.
pub struct Round {
    pub first: Seq<Event>,
    pub second: Seq<Event>,
}

/// Both directions and what the last poll of them returned.
pub struct Pair<F, G> {
    pub first: SpliceIoView<F>,
    pub second: SpliceIoView<G>,
    pub poll: Poll,
}

/// Whether the two directions can be polled with these events.
pub open spec fn round_can_happen<F, G>(pair: Pair<F, G>, round: Round) -> bool {
    &&& can_be_polled(pair.first, round.first)
    &&& can_be_polled(pair.second, round.second)
}

/// Both directions after a poll.
pub open spec fn after_round<F, G>(pair: Pair<F, G>, round: Round) -> Pair<F, G> {
    let (first, step1) = reached(pair.first, round.first);
    let (second, step2) = reached(pair.second, round.second);
    let (own1, own2) = (returned(step1), returned(step2));
    Pair {
        first: kept(first, own1, own2),
        second: kept(second, own2, own1),
        poll: both(own1, own2),
    }
}

/// Both directions after some polls.
pub open spec fn after_rounds<F, G>(pair: Pair<F, G>, rounds: Seq<Round>) -> Pair<F, G>
    decreases rounds.len(),
{
    if rounds.len() == 0 {
        pair
    } else {
        after_round(after_rounds(pair, rounds.drop_last()), rounds.last())
    }
}

/// Whether the two directions can be polled like this, one poll after the
/// other, each while the last one was pending.
pub open spec fn rounds_can_happen<F, G>(pair: Pair<F, G>, rounds: Seq<Round>) -> bool
    decreases rounds.len(),
{
    rounds.len() > 0 ==> {
        &&& rounds_can_happen(pair, rounds.drop_last())
        &&& after_rounds(pair, rounds.drop_last()).poll is Pending
        &&& round_can_happen(after_rounds(pair, rounds.drop_last()), rounds.last())
    }
}

/// The first failure of the first direction in these polls.
pub open spec fn first_direction_failure(rounds: Seq<Round>) -> Option<IoError>
    decreases rounds.len(),
{
    if rounds.len() == 0 {
        None
    } else {
        earlier_error(
            first_direction_failure(rounds.drop_last()),
            first_failure(rounds.last().first),
        )
    }
}

/// The first failure of the second direction in these polls.
pub open spec fn second_direction_failure(rounds: Seq<Round>) -> Option<IoError>
    decreases rounds.len(),
{
    if rounds.len() == 0 {
        None
    } else {
        earlier_error(
            second_direction_failure(rounds.drop_last()),
            first_failure(rounds.last().second),
        )
    }
}

/// What can happen in one poll can happen.
proof fn poll_can_happen<F>(io: SpliceIoView<F>, events: Seq<Event>)
    requires
        can_be_polled(io, events),
    ensures
        can_happen(io, events),
    decreases events.len(),
{
    if events.len() > 0 {
        poll_can_happen(io, events.drop_last());
    }
}

/// However two directions are polled: what is returned in the end is the error
/// with which the first direction first failed, or else that of the second, and
/// success exactly if neither failed. Until then each holds its own.
pub proof fn failure_of_a_direction_is_returned<F, G>(pair: Pair<F, G>, rounds: Seq<Round>)
    requires
        is_starting(pair.first),
        is_starting(pair.second),
        pair.poll is Pending,
        rounds_can_happen(pair, rounds),
    ensures
        match after_rounds(pair, rounds).poll {
            Poll::Pending => {
                &&& after_rounds(pair, rounds).first.held() == first_direction_failure(rounds)
                &&& after_rounds(pair, rounds).second.held() == second_direction_failure(rounds)
            },
            Poll::Ready(result) => result == outcome(
                earlier_error(first_direction_failure(rounds), second_direction_failure(rounds)),
            ),
        },
    decreases rounds.len(),
{
    if rounds.len() > 0 {
        let before = after_rounds(pair, rounds.drop_last());
        let round = rounds.last();
        failure_of_a_direction_is_returned(pair, rounds.drop_last());
        poll_can_happen(before.first, round.first);
        poll_can_happen(before.second, round.second);
        run_returns_first_error(before.first, round.first);
        run_returns_first_error(before.second, round.second);
    }
}

/// A poll keeps the counts in order and exact. One that does not end with an
/// error keeps the invariant, and flushes in time.
proof fn poll_keeps_order<F>(io: SpliceIoView<F>, before: bool, events: Seq<Event>)
    requires
        io.wf(),
        flushed_in_time(io, before),
        can_be_polled(io, events),
    ensures
        ({
            let (after, step) = reached(io, events);
            &&& after.counts_ok()
            &&& after.ctx.read == io.ctx.read + taken(io, events)
            &&& after.ctx.written == io.ctx.written + delivered(io, events)
            &&& !(step matches Step::Ready(Err(_))) ==> {
                &&& after.wf()
                &&& flushed_in_time(after, unflushed(io, before, events))
            }
            &&& step matches Step::Ready(Ok(_)) ==> after.state == (TransferState::Finished {
                error: None,
            })
        }),
    decreases events.len(),
{
    if events.len() > 0 {
        poll_keeps_order(io, before, events.drop_last());
    }
}

/// Whether bytes were handed to the destination of the first direction since it
/// was last flushed in these polls.
pub open spec fn first_direction_unflushed<F, G>(pair: Pair<F, G>, rounds: Seq<Round>) -> bool
    decreases rounds.len(),
{
    rounds.len() > 0 && unflushed(
        after_rounds(pair, rounds.drop_last()).first,
        first_direction_unflushed(pair, rounds.drop_last()),
        rounds.last().first,
    )
}

/// Whether bytes were handed to the destination of the second direction since
/// it was last flushed in these polls.
pub open spec fn second_direction_unflushed<F, G>(pair: Pair<F, G>, rounds: Seq<Round>) -> bool
    decreases rounds.len(),
{
    rounds.len() > 0 && unflushed(
        after_rounds(pair, rounds.drop_last()).second,
        second_direction_unflushed(pair, rounds.drop_last()),
        rounds.last().second,
    )
}

/// However two directions are polled: each is in order and flushes its
/// destination in time, and when both have ended well each destination has been
/// flushed after its last byte.
pub proof fn flushed_at_both_ends<F, G>(pair: Pair<F, G>, rounds: Seq<Round>)
    requires
        is_starting(pair.first),
        is_starting(pair.second),
        pair.poll is Pending,
        rounds_can_happen(pair, rounds),
    ensures
        ({
            let after = after_rounds(pair, rounds);
            match after.poll {
                Poll::Pending => {
                    &&& after.first.wf()
                    &&& after.second.wf()
                    &&& flushed_in_time(after.first, first_direction_unflushed(pair, rounds))
                    &&& flushed_in_time(after.second, second_direction_unflushed(pair, rounds))
                },
                Poll::Ready(Ok(_)) => {
                    &&& !first_direction_unflushed(pair, rounds)
                    &&& !second_direction_unflushed(pair, rounds)
                },
                Poll::Ready(Err(_)) => true,
            }
        }),
    decreases rounds.len(),
{
    if rounds.len() > 0 {
        let earlier = rounds.drop_last();
        let before = after_rounds(pair, earlier);
        let round = rounds.last();
        flushed_at_both_ends(pair, earlier);
        poll_keeps_order(before.first, first_direction_unflushed(pair, earlier), round.first);
        poll_keeps_order(before.second, second_direction_unflushed(pair, earlier), round.second);
    }
}

/// The number of bytes that these polls moved from the source of the first
/// direction, and to its destination.
pub open spec fn moved_by_first<F, G>(pair: Pair<F, G>, rounds: Seq<Round>) -> (nat, nat)
    decreases rounds.len(),
{
    if rounds.len() == 0 {
        (0, 0)
    } else {
        let earlier = moved_by_first(pair, rounds.drop_last());
        let io = after_rounds(pair, rounds.drop_last()).first;
        let events = rounds.last().first;
        (earlier.0 + taken(io, events), earlier.1 + delivered(io, events))
    }
}

/// The number of bytes that these polls moved from the source of the second
/// direction, and to its destination.
pub open spec fn moved_by_second<F, G>(pair: Pair<F, G>, rounds: Seq<Round>) -> (nat, nat)
    decreases rounds.len(),
{
    if rounds.len() == 0 {
        (0, 0)
    } else {
        let earlier = moved_by_second(pair, rounds.drop_last());
        let io = after_rounds(pair, rounds.drop_last()).second;
        let events = rounds.last().second;
        (earlier.0 + taken(io, events), earlier.1 + delivered(io, events))
    }
}

/// However two directions are polled: the counters of each are exact.
pub proof fn counters_are_exact_both_ways<F, G>(pair: Pair<F, G>, rounds: Seq<Round>)
    requires
        is_starting(pair.first),
        is_starting(pair.second),
        pair.poll is Pending,
        rounds_can_happen(pair, rounds),
    ensures
        ({
            let after = after_rounds(pair, rounds);
            let (first, second) = (after.first.ctx, after.second.ctx);
            &&& (first.read, first.written) == moved_by_first(pair, rounds)
            &&& (second.read, second.written) == moved_by_second(pair, rounds)
        }),
    decreases rounds.len(),
{
    if rounds.len() > 0 {
        let earlier = rounds.drop_last();
        let before = after_rounds(pair, earlier);
        let round = rounds.last();
        counters_are_exact_both_ways(pair, earlier);
        flushed_at_both_ends(pair, earlier);
        poll_keeps_order(before.first, first_direction_unflushed(pair, earlier), round.first);
        poll_keeps_order(before.second, second_direction_unflushed(pair, earlier), round.second);
    }
}

/// However two directions are polled: when both have ended well, everything that
/// was taken from either end has been delivered to the other, and both pipes
/// are closed.
pub proof fn clean_end_delivers_both_ways<F, G>(pair: Pair<F, G>, rounds: Seq<Round>)
    requires
        is_starting(pair.first),
        is_starting(pair.second),
        pair.poll is Pending,
        rounds_can_happen(pair, rounds),
        after_rounds(pair, rounds).poll matches Poll::Ready(Ok(_)),
    ensures
        moved_by_first(pair, rounds).0 == moved_by_first(pair, rounds).1,
        moved_by_second(pair, rounds).0 == moved_by_second(pair, rounds).1,
        ({
            let after = after_rounds(pair, rounds);
            let (first, second) = (after.first.ctx, after.second.ctx);
            &&& !first.fill_open() && !first.drain_open()
            &&& !second.fill_open() && !second.drain_open()
        }),
{
    let earlier = rounds.drop_last();
    let before = after_rounds(pair, earlier);
    let round = rounds.last();
    counters_are_exact_both_ways(pair, rounds);
    flushed_at_both_ends(pair, earlier);
    poll_keeps_order(before.first, first_direction_unflushed(pair, earlier), round.first);
    poll_keeps_order(before.second, second_direction_unflushed(pair, earlier), round.second);
}

/// Whether the source of the first direction was asked for bytes in these polls
/// and had none left.
pub open spec fn first_source_ended<F, G>(pair: Pair<F, G>, rounds: Seq<Round>) -> bool
    decreases rounds.len(),
{
    rounds.len() > 0 && {
        ||| first_source_ended(pair, rounds.drop_last())
        ||| source_ended(after_rounds(pair, rounds.drop_last()).first, rounds.last().first)
    }
}

/// Whether the source of the second direction was asked for bytes in these
/// polls and had none left.
pub open spec fn second_source_ended<F, G>(pair: Pair<F, G>, rounds: Seq<Round>) -> bool
    decreases rounds.len(),
{
    rounds.len() > 0 && {
        ||| second_source_ended(pair, rounds.drop_last())
        ||| source_ended(after_rounds(pair, rounds.drop_last()).second, rounds.last().second)
    }
}

/// Whether the fill side is closed only for a reason: the target has been
/// reached, or the source has `ended`.
pub open spec fn closed_for_a_reason<F>(io: SpliceIoView<F>, ended: bool) -> bool {
    !io.ctx.fill_open() ==> io.ctx.read == io.ctx.target || ended
}

/// A poll closes the fill side only for a reason, and keeps the target.
proof fn poll_closes_for_a_reason<F>(io: SpliceIoView<F>, ended: bool, events: Seq<Event>)
    requires
        io.wf(),
        closed_for_a_reason(io, ended),
        can_be_polled(io, events),
    ensures
        closed_for_a_reason(reached(io, events).0, ended || source_ended(io, events)),
        reached(io, events).0.ctx.target == io.ctx.target,
    decreases events.len(),
{
    if events.len() > 0 {
        poll_closes_for_a_reason(io, ended, events.drop_last());
        poll_keeps_order(io, false, events.drop_last());
    }
}

/// However two directions are polled: the fill side of each is closed only when
/// its target has been reached or its source has come to its end, and the
/// targets are what they were.
pub proof fn fills_close_for_a_reason<F, G>(pair: Pair<F, G>, rounds: Seq<Round>)
    requires
        is_starting(pair.first),
        is_starting(pair.second),
        pair.poll is Pending,
        rounds_can_happen(pair, rounds),
    ensures
        ({
            let after = after_rounds(pair, rounds);
            &&& closed_for_a_reason(after.first, first_source_ended(pair, rounds))
            &&& closed_for_a_reason(after.second, second_source_ended(pair, rounds))
            &&& after.first.ctx.target == pair.first.ctx.target
            &&& after.second.ctx.target == pair.second.ctx.target
        }),
    decreases rounds.len(),
{
    if rounds.len() > 0 {
        let earlier = rounds.drop_last();
        let before = after_rounds(pair, earlier);
        let round = rounds.last();
        fills_close_for_a_reason(pair, earlier);
        flushed_at_both_ends(pair, earlier);
        poll_closes_for_a_reason(before.first, first_source_ended(pair, earlier), round.first);
        poll_closes_for_a_reason(before.second, second_source_ended(pair, earlier), round.second);
    }
}

/// However two directions are polled: when both have ended well, each has moved
/// exactly its target, or all that a shorter source had.
pub proof fn clean_end_meets_targets_both_ways<F, G>(pair: Pair<F, G>, rounds: Seq<Round>)
    requires
        is_starting(pair.first),
        is_starting(pair.second),
        pair.poll is Pending,
        rounds_can_happen(pair, rounds),
        after_rounds(pair, rounds).poll matches Poll::Ready(Ok(_)),
    ensures
        moved_by_first(pair, rounds).1 == pair.first.ctx.target || first_source_ended(pair, rounds),
        moved_by_second(pair, rounds).1 == pair.second.ctx.target || second_source_ended(
            pair,
            rounds,
        ),
{
    clean_end_delivers_both_ways(pair, rounds);
    counters_are_exact_both_ways(pair, rounds);
    fills_close_for_a_reason(pair, rounds);
}

/// Two directions together are over exactly when both are, and without an error
/// exactly when neither has one.
pub proof fn both_directions_count(first: Poll, second: Poll)
    ensures
        both(first, second) is Pending <==> first is Pending || second is Pending,
        (both(first, second) matches Poll::Ready(Ok(_))) <==> ((first matches Poll::Ready(Ok(_)))
            && (second matches Poll::Ready(Ok(_)))),
{
}

/// A range that is left open is the whole file; any range that is accepted lies
/// within the file.
pub proof fn ranges_lie_within_the_file(f_len: u64, start: Option<u64>, end: Option<u64>)
    ensures
        valid_range(f_len, None, None) && range_len(f_len, None, None) == f_len,
        valid_range(f_len, start, end) ==> 0 <= range_len(f_len, start, end) && range_start(start)
            + range_len(f_len, start, end) == range_end(f_len, end) <= f_len,
{
}

/// Whether the source is a file that has been read from `start` up to here.
pub open spec fn source_tracks<F>(t: TransferView<F>, start: int) -> bool {
    t.offset matches Offset::In(off) && off == start + t.read
}

/// Whether the destination is a file that has been written from `start` up to
/// here.
pub open spec fn destination_tracks<F>(t: TransferView<F>, start: int) -> bool {
    t.offset matches Offset::Out(off) && off == start + t.written
}

/// Whether the kernel advanced the file offset by what it moved, as `splice(2)`
/// does.
pub open spec fn offset_advances<F>(io: SpliceIoView<F>, event: Event) -> bool {
    match event {
        Event::Attempted(Attempt::Tried(spliced)) => match (
            io.state,
            io.ctx.offset,
            spliced.offset,
        ) {
            (TransferState::Fill, Offset::In(off), Some(new)) => new == off + moved(event),
            (TransferState::Fill, Offset::In(_), None) => moved(event) == 0,
            (TransferState::Drain, Offset::Out(off), Some(new)) => new == off + moved(event),
            (TransferState::Drain, Offset::Out(_), None) => moved(event) == 0,
            _ => true,
        },
        _ => true,
    }
}

/// A range of a source file is read from front to back without gaps: the offset
/// is always the start of the range plus what has been read, and a call never
/// goes past the end of the range.
pub proof fn source_file_is_read_in_order<F>(io: SpliceIoView<F>, start: int, event: Event)
    requires
        io.wf(),
        io.admits(event),
        source_tracks(io.ctx, start),
        offset_advances(io, event),
    ensures
        source_tracks(io.step(event).0.ctx, start),
        io.action() matches Action::Fill(Some(r)) ==> r.offset == Some((start + io.ctx.read) as u64)
            && start + io.ctx.read + r.max_len <= start + io.ctx.target,
{
}

/// A range of a destination file is written from front to back without gaps:
/// the offset is always the start of the range plus what has been written, and
/// a call never goes past the end of the range.
pub proof fn destination_file_is_written_in_order<F>(
    io: SpliceIoView<F>,
    start: int,
    event: Event,
)
    requires
        io.wf(),
        io.admits(event),
        destination_tracks(io.ctx, start),
        offset_advances(io, event),
    ensures
        destination_tracks(io.step(event).0.ctx, start),
        io.action() matches Action::Drain(Some(r)) ==> r.offset == Some(
            (start + io.ctx.written) as u64,
        ) && start + io.ctx.written + r.max_len <= start + io.ctx.target,
{
}

/// Whether the kernel advanced the file offset in all of `events`.
pub open spec fn offsets_advance<F>(io: SpliceIoView<F>, events: Seq<Event>) -> bool
    decreases events.len(),
{
    events.len() > 0 ==> {
        &&& offsets_advance(io, events.drop_last())
        &&& offset_advances(reached(io, events.drop_last()).0, events.last())
    }
}

/// After any events the offset of a file is the start of the range plus the
/// bytes that were taken from it, or handed to it.
pub proof fn file_offset_is_exact<F>(io: SpliceIoView<F>, start: int, events: Seq<Event>)
    requires
        is_starting(io),
        can_happen(io, events),
        offsets_advance(io, events),
    ensures
        source_tracks(io.ctx, start) ==> reached(io, events).0.ctx.offset == Offset::In(
            (start + taken(io, events)) as u64,
        ),
        destination_tracks(io.ctx, start) ==> reached(io, events).0.ctx.offset == Offset::Out(
            (start + delivered(io, events)) as u64,
        ),
        source_tracks(io.ctx, start) ==> source_tracks(reached(io, events).0.ctx, start),
        destination_tracks(io.ctx, start) ==> destination_tracks(reached(io, events).0.ctx, start),
    decreases events.len(),
{
    counters_are_exact(io, events);
    if events.len() > 0 {
        let before = reached(io, events.drop_last()).0;
        file_offset_is_exact(io, start, events.drop_last());
        run_keeps_invariant(io, events.drop_last());
        if source_tracks(io.ctx, start) {
            source_file_is_read_in_order(before, start, events.last());
        }
        if destination_tracks(io.ctx, start) {
            destination_file_is_written_in_order(before, start, events.last());
        }
    }
}

/// A transfer of a range of a file begins at the start of the range, and its
/// target is the length of the range.
pub proof fn file_transfer_starts_in_order<F>(
    pipe: PipeView<F>,
    f_len: u64,
    start: Option<u64>,
    end: Option<u64>,
)
    requires
        valid_range(f_len, start, end),
    ensures
        ({
            let s = range_start(start);
            let source = TransferView::of_file(pipe, Offset::In(s), f_len, start, end);
            let dest = TransferView::of_file(pipe, Offset::Out(s), f_len, start, end);
            &&& source_tracks(source, s as int)
            &&& destination_tracks(dest, s as int)
            &&& s + source.target == s + dest.target == range_end(f_len, end)
        }),
{
}

/// Polled half by half: as long as no call moves more bytes than are wanted or
/// there, no more is written than read and no more is read than the target.
pub proof fn halves_keep_counts<F>(ctx: SpliceIoCtxView<F>, attempt: Attempt)
    requires
        ctx.transfer.written <= ctx.transfer.read <= ctx.transfer.target,
    ensures
        moved_at_most(attempt, ctx.transfer.remaining()) ==> ({
            let after = ctx.after_source(attempt).transfer;
            after.written <= after.read <= after.target
        }),
        moved_at_most(attempt, ctx.transfer.buffered()) ==> ({
            let after = ctx.after_dest(attempt).transfer;
            after.written <= after.read <= after.target
        }),
{
}

/// Polled half by half: the fill side is closed by the end of the source and by
/// every I/O error but `EINTR` and `EAGAIN`, and by nothing else. The other side
/// stays as it is.
pub proof fn source_half_closes_its_side<F>(ctx: SpliceIoCtxView<F>, attempt: Attempt)
    requires
        ctx.transfer.fill_open(),
    ensures
        ({
            let after = ctx.after_source(attempt);
            &&& after.transfer.pipe.drain_fd == ctx.transfer.pipe.drain_fd
            &&& after.transfer.pipe.size == ctx.transfer.pipe.size
            &&& after.transfer.written == ctx.transfer.written
            &&& after.transfer.target == ctx.transfer.target
            &&& after.need_flush == ctx.need_flush
            &&& match attempt {
                Attempt::NotReady => after == ctx,
                Attempt::ReadinessFailed(e) => after.transfer.fill_open() == e.transient()
                    && after.transfer.read == ctx.transfer.read,
                Attempt::Tried(spliced) => match spliced.result {
                    Ok(n) => after.transfer.fill_open() == (n > 0) && after.transfer.read
                        == ctx.transfer.read + n,
                    Err(e) => after.transfer.fill_open() == e.transient() && after.transfer.read
                        == ctx.transfer.read,
                },
            }
        }),
{
}

/// Polled half by half: the drain side is closed by a destination that takes
/// nothing and by every I/O error but `EINTR` and `EAGAIN`, and by nothing else.
/// The other side stays as it is.
pub proof fn dest_half_closes_its_side<F>(ctx: SpliceIoCtxView<F>, attempt: Attempt)
    requires
        ctx.transfer.drain_open(),
    ensures
        ({
            let after = ctx.after_dest(attempt);
            &&& after.transfer.pipe.fill_fd == ctx.transfer.pipe.fill_fd
            &&& after.transfer.pipe.size == ctx.transfer.pipe.size
            &&& after.transfer.read == ctx.transfer.read
            &&& after.transfer.target == ctx.transfer.target
            &&& match attempt {
                Attempt::NotReady => after == ctx,
                Attempt::ReadinessFailed(e) => after.transfer.drain_open() == e.transient()
                    && after.transfer.written == ctx.transfer.written,
                Attempt::Tried(spliced) => match spliced.result {
                    Ok(n) => after.transfer.drain_open() == (n > 0) && after.transfer.written
                        == ctx.transfer.written + n && (n > 0 ==> after.need_flush),
                    Err(e) => after.transfer.drain_open() == e.transient()
                        && after.transfer.written == ctx.transfer.written,
                },
            }
        }),
{
}

/// One attempt at a time: as long as no call moves more bytes than are wanted or
/// there, no more is written than read and no more is read than the target.
pub proof fn attempts_keep_counts<F>(t: TransferView<F>, spliced: Spliced)
    requires
        t.written <= t.read <= t.target,
    ensures
        (wants_source(t) ==> (spliced.result matches Ok(n) ==> n <= t.remaining())) ==> ({
            let after = source_tried(t, spliced);
            after.written <= after.read <= after.target
        }),
        (wants_destination(t) ==> (spliced.result matches Ok(n) ==> n <= t.buffered())) ==> ({
            let after = destination_tried(t, spliced);
            after.written <= after.read <= after.target
        }),
{
}

} // verus!
