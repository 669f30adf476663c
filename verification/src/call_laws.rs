//! What holds of single calls: of ranges, of new transfers, of what is asked of
//! the kernel, and of what each outcome does.
//!
//! All of it is stated over plain fields and numbers, for any transfer and any
//! outcome.

use crate::context::{idle, next_len, SpliceIoCtxView};
use crate::error::{ErrorKind, IoError};
use crate::io::{both, kept, Action, Event, Poll, SpliceIoView, TransferState};
use crate::laws::{
    can_happen, delivered, destination_tracks, reached, source_ended, source_tracks, taken,
};
use crate::offset::{range_end, range_len, range_start, valid_range, Offset};
use crate::pipe::{
    is_fill_done_error, is_size_error, Pipe, PipeView, RawPipe, DEFAULT_PIPE_SIZE,
    MAXIMUM_PIPE_SIZE,
};
use crate::size::NonZeroSize;
use crate::splice::SpliceOutcome;
use crate::splicer::{destination_tried, source_tried, wants_destination, wants_source};
use crate::transfer::{
    is_file_setup_error, is_resize_error, one_call, Attempt, SpliceRequest, Spliced, Step,
    TransferView,
};
use vstd::prelude::*;

verus! {

// Ranges of files.

/// Every range that lies within the file is accepted and no other, and it holds
/// the bytes from its start up to its end. An open start is the beginning of the
/// file. An open end is the same as an end that is the length of the file.
pub proof fn ranges_within_the_file_are_accepted(f_len: u64, start: u64, end: u64)
    ensures
        valid_range(f_len, Some(start), Some(end)) <==> start <= end <= f_len,
        range_start(Some(start)) == start,
        range_end(f_len, Some(end)) == end,
        start + range_len(f_len, Some(start), Some(end)) == end,
        range_start(None) == 0,
        range_end(f_len, None) == f_len,
        valid_range(f_len, None, Some(end)) == valid_range(f_len, Some(0), Some(end)),
        range_len(f_len, None, Some(end)) == range_len(f_len, Some(0), Some(end)),
        valid_range(f_len, Some(start), None) == valid_range(f_len, Some(start), Some(f_len)),
        range_len(f_len, Some(start), None) == range_len(f_len, Some(start), Some(f_len)),
        valid_range(f_len, None, None) == valid_range(f_len, Some(0), Some(f_len)),
        range_len(f_len, None, None) == range_len(f_len, Some(0), Some(f_len)),
        start <= f_len ==> valid_range(f_len, Some(start), Some(f_len)),
{
}

/// Two ranges that meet hold together what the range over both holds, and are
/// accepted exactly if that one is and they meet inside it.
pub proof fn ranges_split_anywhere(f_len: u64, start: u64, middle: u64, end: u64)
    ensures
        range_len(f_len, Some(start), Some(middle)) + range_len(f_len, Some(middle), Some(end))
            == range_len(f_len, Some(start), Some(end)),
        valid_range(f_len, Some(start), Some(middle)) && valid_range(f_len, Some(middle), Some(end))
            <==> valid_range(f_len, Some(start), Some(end)) && start <= middle <= end,
{
}

// New transfers.

/// The accounts of a transfer add up: the target is what has been read and what
/// remains, and what has been read has been written or is in the pipe. A side
/// of the pipe is open as long as there is its descriptor.
pub proof fn accounts_add_up<F>(t: TransferView<F>)
    ensures
        t.read + t.remaining() == t.target,
        t.written + t.buffered() == t.read,
        t.fill_open() <==> t.pipe.fill_fd is Some,
        t.drain_open() <==> t.pipe.drain_fd is Some,
        t.is_unstarted() <==> t.read == 0 && t.written == 0 && t.pipe.fill_fd is Some
            && t.pipe.drain_fd is Some,
        t.offset.source() is Some <==> t.offset is In,
        t.offset.source() matches Some(off) ==> t.offset == Offset::In(off),
        t.offset.destination() is Some <==> t.offset is Out,
        t.offset.destination() matches Some(off) ==> t.offset == Offset::Out(off),
{
}

/// A transfer between streams for which no target was set is to move as much as
/// there is, `isize::MAX` bytes at most, whatever the size of its pipe. It has no
/// file offset, it has not moved anything, and its pipe is the one given.
pub proof fn streams_are_copied_without_a_limit<F>(pipe: PipeView<F>, other: PipeView<F>)
    ensures
        ({
            let t = TransferView::fresh(pipe);
            &&& t.target == isize::MAX
            &&& t.target == TransferView::fresh(other).target
            &&& t.offset == Offset::Unset
            &&& t.read == 0
            &&& t.written == 0
            &&& t.pipe == pipe
        }),
{
}

/// A copy of a stream that ends well has come to the end of its source, unless
/// it has moved `isize::MAX` bytes.
pub proof fn streams_are_copied_to_their_end<F>(
    io: SpliceIoView<F>,
    pipe: PipeView<F>,
    events: Seq<Event>,
)
    requires
        pipe.fill_fd is Some,
        pipe.drain_fd is Some,
        io.ctx == TransferView::fresh(pipe),
        io.state is Fill,
        can_happen(io, events),
        reached(io, events).1 matches Step::Ready(Ok(_)),
    ensures
        source_ended(io, events) || delivered(io, events) == isize::MAX,
        delivered(io, events) == taken(io, events),
{
    crate::laws::clean_end_meets_target(io, events);
    crate::laws::clean_end_delivers_everything(io, events);
}

/// A transfer of a range of a file is to move the bytes of the range, through
/// the pipe given, and has not moved anything.
pub proof fn ranges_are_moved_whole<F>(
    pipe: PipeView<F>,
    offset: Offset,
    f_len: u64,
    start: u64,
    end: u64,
)
    requires
        start <= end <= f_len,
    ensures
        ({
            let t = TransferView::of_file(pipe, offset, f_len, Some(start), Some(end));
            &&& start + t.target == end
            &&& t.offset == offset
            &&& t.read == 0
            &&& t.written == 0
            &&& t.pipe == pipe
        }),
        TransferView::of_file(pipe, offset, f_len, None, Some(end)) == TransferView::of_file(
            pipe,
            offset,
            f_len,
            Some(0),
            Some(end),
        ),
        TransferView::of_file(pipe, offset, f_len, Some(start), None) == TransferView::of_file(
            pipe,
            offset,
            f_len,
            Some(start),
            Some(f_len),
        ),
        TransferView::of_file(pipe, offset, f_len, None, None) == TransferView::of_file(
            pipe,
            offset,
            f_len,
            Some(0),
            Some(f_len),
        ),
{
}

/// A transfer of a range of a file that ends well has moved every byte of the
/// range, unless its source came to its end.
pub proof fn ranges_are_delivered_whole<F>(
    io: SpliceIoView<F>,
    pipe: PipeView<F>,
    offset: Offset,
    f_len: u64,
    start: u64,
    end: u64,
    events: Seq<Event>,
)
    requires
        start <= end <= f_len,
        end - start <= usize::MAX,
        pipe.fill_fd is Some,
        pipe.drain_fd is Some,
        io.ctx == TransferView::of_file(pipe, offset, f_len, Some(start), Some(end)),
        io.state is Fill,
        can_happen(io, events),
        reached(io, events).1 matches Step::Ready(Ok(_)),
    ensures
        start + delivered(io, events) == end || source_ended(io, events),
        delivered(io, events) == taken(io, events),
{
    crate::laws::clean_end_meets_target(io, events);
    crate::laws::clean_end_delivers_everything(io, events);
}

/// Why a transfer of a range of a file cannot be set up: a range that does not
/// lie within the file comes first, then one that is too long to count, and
/// only then is the pipe to blame.
pub proof fn setup_errors_say_why<F>(
    e: IoError,
    f_len: u64,
    start: Option<u64>,
    end: Option<u64>,
    too_long: Seq<char>,
    pipe: Result<Pipe<F>, IoError>,
)
    requires
        is_file_setup_error(e, f_len, start, end, too_long, pipe),
    ensures
        ({
            let first = if start is Some {
                start->0
            } else {
                0
            };
            let last = if end is Some {
                end->0
            } else {
                f_len
            };
            if first <= last <= f_len {
                if last - first <= usize::MAX {
                    pipe == Err::<Pipe<F>, IoError>(e)
                } else {
                    e.kind == ErrorKind::InvalidInput && e.code is None && e.message@ == too_long
                }
            } else {
                &&& e.kind == ErrorKind::InvalidInput
                &&& e.code is None
                &&& e.message@ == "invalid offset range"@
            }
        }),
{
}

/// A pipe can be resized as long as it can be filled and the kernel says that it
/// holds something. Else the error is the kernel's own, if it had one.
pub proof fn resize_errors_say_why<F>(
    e: IoError,
    t: TransferView<F>,
    resized: Result<usize, IoError>,
)
    requires
        is_resize_error(e, t, resized),
    ensures
        t.pipe.fill_fd is Some && resized is Err ==> resized == Err::<usize, IoError>(e),
        t.pipe.fill_fd is None ==> e.kind == ErrorKind::Other && e.code is None && e.message@
            == "fill-side file descriptor is not available"@,
        t.pipe.fill_fd is Some && resized is Ok ==> e.kind == ErrorKind::Other && e.code is None
            && e.message@ == "fcntl returned zero pipe size"@,
{
}

/// The errors that the library makes itself have no code of the operating
/// system, and have the kind and the message that they are given.
pub proof fn own_errors_are_plain(e: IoError, kind: ErrorKind, message: Seq<char>)
    ensures
        e.is_own(kind, message) <==> e.kind == kind && e.code is None && e.message@ == message,
        is_size_error(e) ==> e.kind == ErrorKind::Other && e.code is None && e.message@
            == "failed to set pipe size, using default size"@,
        is_fill_done_error(e) ==> e.kind == ErrorKind::Other && e.code is None && e.message@
            == "fill-side file descriptor is not available"@,
{
}

/// Exactly the operations that would have had to wait, or that a signal cut
/// short, may simply be tried again.
pub proof fn only_interruptions_are_transient(e: IoError)
    ensures
        e.kind == ErrorKind::WouldBlock ==> e.transient(),
        e.kind == ErrorKind::Interrupted ==> e.transient(),
        e.transient() ==> e.kind == ErrorKind::WouldBlock || e.kind == ErrorKind::Interrupted,
{
}

/// A new pipe is open at both ends, each in its place, and has the size that the
/// kernel reported.
pub proof fn new_pipes_are_open<F>(raw: RawPipe<F>, size: nat)
    ensures
        PipeView::open(raw, size).drain_fd == Some(raw.drain_fd),
        PipeView::open(raw, size).fill_fd == Some(raw.fill_fd),
        PipeView::open(raw, size).size == size,
        MAXIMUM_PIPE_SIZE == 1024 * 1024,
        DEFAULT_PIPE_SIZE == 64 * 1024,
{
}

// What is asked of the kernel.

/// Whether `n` is the largest number within all of the limits.
pub open spec fn is_least(n: int, limits: Seq<int>) -> bool {
    &&& forall|i: int| 0 <= i < limits.len() ==> n <= #[trigger] limits[i]
    &&& exists|i: int| 0 <= i < limits.len() && n == #[trigger] limits[i]
}

/// Whether a call is asked for with the offset `off`, for as many of `wanted`
/// bytes as one call may move. Nothing is asked for exactly if nothing is
/// wanted.
pub open spec fn asks_for(request: Option<SpliceRequest>, wanted: int, off: Option<u64>) -> bool {
    match request {
        Some(r) => {
            &&& r.offset == off
            &&& 1 <= r.max_len <= wanted
            &&& r.max_len <= 1024 * 1024
            &&& r.max_len == wanted || r.max_len == 1024 * 1024
        },
        None => wanted == 0,
    }
}

/// What one call is asked to move: all of it, up to one megabyte.
pub proof fn one_call_moves_a_megabyte_at_most(len: int)
    ensures
        is_least(one_call(len), seq![len, 1024 * 1024int]),
{
    let limits = seq![len, 1024 * 1024int];
    assert(limits[0] == len && limits[1] == 1024 * 1024);
}

/// The source is asked for all that is still wanted, and the destination to take
/// all that is in the pipe, each in calls of a megabyte at most. A file is read,
/// or written, at its offset; the offset of one end is not used at the other.
pub proof fn requests_ask_for_what_is_left<F>(t: TransferView<F>)
    requires
        t.written <= t.read <= t.target <= usize::MAX,
    ensures
        asks_for(
            t.fill_request(),
            t.target - t.read,
            if t.offset is In {
                Some(t.offset->In_0)
            } else {
                None
            },
        ),
        asks_for(
            t.drain_request(),
            t.read - t.written,
            if t.offset is Out {
                Some(t.offset->Out_0)
            } else {
                None
            },
        ),
        t.read == t.target <==> t.fill_request() is None,
        t.written == t.read <==> t.drain_request() is None,
{
}

/// A single attempt is worth a call exactly while the side of the pipe is open
/// and there is something left to move.
pub proof fn attempts_want_what_is_left<F>(t: TransferView<F>)
    ensures
        wants_source(t) <==> t.pipe.fill_fd is Some && t.read < t.target,
        wants_destination(t) <==> t.pipe.drain_fd is Some && t.written < t.read,
{
}

/// The half that serves the source asks for what is still wanted, for no more
/// than the caller would like, and for a megabyte at most.
pub proof fn half_asks_for_what_is_left<F>(t: TransferView<F>, ideal_len: Option<NonZeroSize>)
    ensures
        t.target <= t.read ==> next_len(t, None) == 0,
        t.read <= t.target ==> is_least(next_len(t, None), seq![t.target - t.read, 1024 * 1024int]),
        ideal_len matches Some(ideal) ==> is_least(
            next_len(t, ideal_len),
            seq![next_len(t, None), ideal@ as int],
        ),
        t.read < t.target && (ideal_len matches Some(ideal) ==> ideal@ > 0) ==> next_len(
            t,
            ideal_len,
        ) > 0,
{
    let limits = seq![t.target - t.read, 1024 * 1024int];
    assert(limits[0] == t.target - t.read && limits[1] == 1024 * 1024);
    if let Some(ideal) = ideal_len {
        let limits = seq![next_len(t, None), ideal@ as int];
        assert(limits[0] == next_len(t, None) && limits[1] == ideal@);
    }
}

// What an outcome does to the books.

/// Whether nothing but the counter of the source, its side of the pipe and the
/// file offset may differ.
pub open spec fn only_source_side<F>(t: TransferView<F>, after: TransferView<F>) -> bool {
    &&& after.target == t.target
    &&& after.written == t.written
    &&& after.pipe.size == t.pipe.size
    &&& after.pipe.drain_fd == t.pipe.drain_fd
}

/// Whether nothing but the counter of the destination, its side of the pipe and
/// the file offset may differ.
pub open spec fn only_destination_side<F>(t: TransferView<F>, after: TransferView<F>) -> bool {
    &&& after.target == t.target
    &&& after.read == t.read
    &&& after.pipe.size == t.pipe.size
    &&& after.pipe.fill_fd == t.pipe.fill_fd
}

/// Whether the offset of a source that is a file is now where the call left it,
/// and any other offset is as it was.
pub open spec fn source_offset_followed<F>(
    t: TransferView<F>,
    after: TransferView<F>,
    left: Option<u64>,
) -> bool {
    if t.offset is In && left is Some {
        after.offset == Offset::In(left->0)
    } else {
        after.offset == t.offset
    }
}

/// Whether the offset of a destination that is a file is now where the call left
/// it, and any other offset is as it was.
pub open spec fn destination_offset_followed<F>(
    t: TransferView<F>,
    after: TransferView<F>,
    left: Option<u64>,
) -> bool {
    if t.offset is Out && left is Some {
        after.offset == Offset::Out(left->0)
    } else {
        after.offset == t.offset
    }
}

/// Each entry in the books changes what it is about and nothing else: a count, a
/// side of the pipe, or the offset of the end that is a file.
pub proof fn entries_change_one_thing<F>(t: TransferView<F>, bytes: nat, left: Option<u64>)
    ensures
        ({
            let after = t.plus_read(bytes);
            &&& only_source_side(t, after)
            &&& after.read == t.read + bytes
            &&& after.pipe.fill_fd == t.pipe.fill_fd
            &&& after.offset == t.offset
        }),
        ({
            let after = t.plus_written(bytes);
            &&& only_destination_side(t, after)
            &&& after.written == t.written + bytes
            &&& after.pipe.drain_fd == t.pipe.drain_fd
            &&& after.offset == t.offset
        }),
        ({
            let after = t.fill_closed();
            &&& only_source_side(t, after)
            &&& after.read == t.read
            &&& after.pipe.fill_fd is None
            &&& after.offset == t.offset
        }),
        ({
            let after = t.drain_closed();
            &&& only_destination_side(t, after)
            &&& after.written == t.written
            &&& after.pipe.drain_fd is None
            &&& after.offset == t.offset
        }),
        ({
            let after = t.source_at(left);
            &&& only_source_side(t, after)
            &&& after.read == t.read
            &&& after.pipe.fill_fd == t.pipe.fill_fd
            &&& source_offset_followed(t, after, left)
        }),
        ({
            let after = t.destination_at(left);
            &&& only_destination_side(t, after)
            &&& after.written == t.written
            &&& after.pipe.drain_fd == t.pipe.drain_fd
            &&& destination_offset_followed(t, after, left)
        }),
{
}

/// Whether the books of the source have taken in the outcome of a call: the
/// bytes are counted, the offset is where the call left it, and the fill side is
/// closed exactly if the source gave nothing.
pub open spec fn source_call_booked<F>(
    t: TransferView<F>,
    after: TransferView<F>,
    spliced: Spliced,
) -> bool {
    &&& only_source_side(t, after)
    &&& source_offset_followed(t, after, spliced.offset)
    &&& match spliced.result {
        Ok(n) => {
            &&& after.read == t.read + n
            &&& n > 0 ==> after.pipe.fill_fd == t.pipe.fill_fd
            &&& n == 0 ==> after.pipe.fill_fd is None
        },
        Err(_) => after.read == t.read && after.pipe.fill_fd == t.pipe.fill_fd,
    }
}

/// Whether the books of the destination have taken in the outcome of a call: the
/// bytes are counted, the offset is where the call left it, and the drain side
/// stays open.
pub open spec fn destination_call_booked<F>(
    t: TransferView<F>,
    after: TransferView<F>,
    spliced: Spliced,
) -> bool {
    &&& only_destination_side(t, after)
    &&& destination_offset_followed(t, after, spliced.offset)
    &&& after.pipe.drain_fd == t.pipe.drain_fd
    &&& match spliced.result {
        Ok(n) => after.written == t.written + n,
        Err(_) => after.written == t.written,
    }
}

/// An attempt to fill the pipe counts what came in and follows the offset, and
/// says how much it was. The source is done when it gave nothing or when the
/// target had been reached already; in that case nothing is counted. An error is
/// passed on as it is.
pub proof fn fill_attempts_are_booked<F>(t: TransferView<F>, spliced: Spliced)
    requires
        t.read <= t.target,
    ensures
        ({
            let (after, outcome) = t.after_fill(spliced);
            if t.read == t.target {
                &&& only_source_side(t, after)
                &&& after.read == t.read
                &&& after.offset == t.offset
                &&& after.pipe.fill_fd is None
                &&& outcome == Ok::<SpliceOutcome, IoError>(SpliceOutcome::Closed)
            } else {
                &&& source_call_booked(t, after, spliced)
                &&& match outcome {
                    Ok(SpliceOutcome::BytesWritten(n)) => n > 0 && spliced.result == Ok::<
                        usize,
                        IoError,
                    >(n),
                    Ok(SpliceOutcome::Closed) => spliced.result == Ok::<usize, IoError>(0),
                    Ok(SpliceOutcome::NoProgress) => false,
                    Err(e) => spliced.result == Err::<usize, IoError>(e),
                }
            }
        }),
{
}

/// An attempt to drain the pipe counts what went out and follows the offset, and
/// says how much it was. With an empty pipe nothing is counted, and the drain
/// side closes if the source is done. An error is passed on as it is.
pub proof fn drain_attempts_are_booked<F>(t: TransferView<F>, spliced: Spliced)
    requires
        t.written <= t.read,
    ensures
        ({
            let (after, outcome) = t.after_drain(spliced);
            if t.written == t.read {
                &&& only_destination_side(t, after)
                &&& after.written == t.written
                &&& after.offset == t.offset
                &&& t.pipe.fill_fd is Some ==> after.pipe.drain_fd == t.pipe.drain_fd && outcome
                    == Ok::<SpliceOutcome, IoError>(SpliceOutcome::NoProgress)
                &&& t.pipe.fill_fd is None ==> after.pipe.drain_fd is None && outcome == Ok::<
                    SpliceOutcome,
                    IoError,
                >(SpliceOutcome::Closed)
            } else {
                &&& destination_call_booked(t, after, spliced)
                &&& match outcome {
                    Ok(SpliceOutcome::BytesWritten(n)) => n > 0 && spliced.result == Ok::<
                        usize,
                        IoError,
                    >(n),
                    Ok(SpliceOutcome::NoProgress) => spliced.result == Ok::<usize, IoError>(0),
                    Ok(SpliceOutcome::Closed) => false,
                    Err(e) => spliced.result == Err::<usize, IoError>(e),
                }
            }
        }),
{
}

/// A single attempt at the source counts what came in and follows the offset, or
/// closes the fill side where the target had been reached, or does nothing where
/// that side is closed.
pub proof fn single_attempts_at_the_source_are_booked<F>(t: TransferView<F>, spliced: Spliced)
    ensures
        ({
            let after = source_tried(t, spliced);
            if t.pipe.fill_fd is None {
                after == t
            } else if t.target <= t.read {
                &&& only_source_side(t, after)
                &&& after.read == t.read
                &&& after.offset == t.offset
                &&& after.pipe.fill_fd is None
            } else {
                source_call_booked(t, after, spliced)
            }
        }),
{
}

/// A single attempt at the destination counts what went out and follows the
/// offset, or does nothing where the pipe is empty or its drain side closed.
pub proof fn single_attempts_at_the_destination_are_booked<F>(
    t: TransferView<F>,
    spliced: Spliced,
)
    ensures
        ({
            let after = destination_tried(t, spliced);
            if t.pipe.drain_fd is None || t.read <= t.written {
                after == t
            } else {
                destination_call_booked(t, after, spliced)
            }
        }),
{
}

/// A context that gets other books keeps what it has to flush, and one that is
/// new has nothing to flush.
pub proof fn books_are_apart_from_flushing<F>(ctx: SpliceIoCtxView<F>, t: TransferView<F>)
    ensures
        ctx.with(t).transfer == t,
        ctx.with(t).need_flush == ctx.need_flush,
        ctx.with(ctx.transfer) == ctx,
        idle(t).transfer == t,
        !idle(t).need_flush,
{
}

/// The half that serves the source counts what came in and follows the offset.
/// Its side of the pipe closes at the end of the source and at every error but
/// `EINTR` and `EAGAIN`. It does not touch what concerns the destination.
pub proof fn source_half_is_booked<F>(ctx: SpliceIoCtxView<F>, attempt: Attempt)
    ensures
        ({
            let after = ctx.after_source(attempt);
            let open = ctx.transfer.pipe.fill_fd;
            &&& after.need_flush == ctx.need_flush
            &&& match attempt {
                Attempt::NotReady => after == ctx,
                Attempt::ReadinessFailed(e) => {
                    &&& only_source_side(ctx.transfer, after.transfer)
                    &&& after.transfer.read == ctx.transfer.read
                    &&& after.transfer.offset == ctx.transfer.offset
                    &&& after.transfer.pipe.fill_fd == (if e.kind == ErrorKind::WouldBlock || e.kind
                        == ErrorKind::Interrupted {
                        open
                    } else {
                        None
                    })
                },
                Attempt::Tried(spliced) => {
                    &&& only_source_side(ctx.transfer, after.transfer)
                    &&& source_offset_followed(ctx.transfer, after.transfer, spliced.offset)
                    &&& match spliced.result {
                        Ok(n) => source_call_booked(ctx.transfer, after.transfer, spliced),
                        Err(e) => {
                            &&& after.transfer.read == ctx.transfer.read
                            &&& after.transfer.pipe.fill_fd == (if e.kind == ErrorKind::WouldBlock
                                || e.kind == ErrorKind::Interrupted {
                                open
                            } else {
                                None
                            })
                        },
                    }
                },
            }
        }),
{
}

/// The half that serves the destination counts what went out and follows the
/// offset; the destination is then to be flushed. Its side of the pipe closes at
/// a destination that takes nothing and at every error but `EINTR` and `EAGAIN`.
/// It does not touch what concerns the source.
pub proof fn dest_half_is_booked<F>(ctx: SpliceIoCtxView<F>, attempt: Attempt)
    ensures
        ({
            let after = ctx.after_dest(attempt);
            let open = ctx.transfer.pipe.drain_fd;
            match attempt {
                Attempt::NotReady => after == ctx,
                Attempt::ReadinessFailed(e) => {
                    &&& after.need_flush == ctx.need_flush
                    &&& only_destination_side(ctx.transfer, after.transfer)
                    &&& after.transfer.written == ctx.transfer.written
                    &&& after.transfer.offset == ctx.transfer.offset
                    &&& after.transfer.pipe.drain_fd == (if e.kind == ErrorKind::WouldBlock
                        || e.kind == ErrorKind::Interrupted {
                        open
                    } else {
                        None
                    })
                },
                Attempt::Tried(spliced) => {
                    &&& only_destination_side(ctx.transfer, after.transfer)
                    &&& destination_offset_followed(ctx.transfer, after.transfer, spliced.offset)
                    &&& match spliced.result {
                        Ok(n) => {
                            &&& after.transfer.written == ctx.transfer.written + n
                            &&& n > 0 ==> after.need_flush && after.transfer.pipe.drain_fd == open
                            &&& n == 0 ==> after.need_flush == ctx.need_flush
                                && after.transfer.pipe.drain_fd is None
                        },
                        Err(e) => {
                            &&& after.need_flush == ctx.need_flush
                            &&& after.transfer.written == ctx.transfer.written
                            &&& after.transfer.pipe.drain_fd == (if e.kind == ErrorKind::WouldBlock
                                || e.kind == ErrorKind::Interrupted {
                                open
                            } else {
                                None
                            })
                        },
                    }
                },
            }
        }),
{
}

// File offsets, one call after the other.

/// Whether a call advanced the offset `off` of a file by the bytes that it moved,
/// as `splice(2)` does.
pub open spec fn advanced(off: u64, spliced: Spliced) -> bool {
    spliced.offset matches Some(left) && left == off + (match spliced.result {
        Ok(n) => n as int,
        Err(_) => 0,
    })
}

/// A file is read from front to back without gaps, in every style of use: after
/// each call the next one starts where the range starts plus what has been read,
/// and goes no further than the end of the range. What is done at the
/// destination does not move it.
pub proof fn next_read_follows_the_last<F>(
    t: TransferView<F>,
    need_flush: bool,
    start: int,
    off: u64,
    ideal_len: Option<NonZeroSize>,
    spliced: Spliced,
    other: Spliced,
)
    requires
        t.written <= t.read < t.target <= usize::MAX,
        t.pipe.fill_fd is Some,
        t.offset == Offset::In(off),
        off == start + t.read,
        advanced(off, spliced),
        spliced.result matches Ok(n) ==> n <= t.target - t.read,
    ensures
        ({
            let ctx = SpliceIoCtxView { transfer: t, need_flush };
            let tried = Attempt::Tried(spliced);
            let next = t.after_fill(spliced).0;
            let single = source_tried(t, spliced);
            let half = ctx.after_source(tried).transfer;
            &&& next.offset.source() == Some((start + next.read) as u64)
            &&& single.offset.source() == Some((start + single.read) as u64)
            &&& half.offset.source() == Some((start + half.read) as u64)
            &&& next.read == single.read == half.read <= t.target
            &&& next.fill_request() matches Some(r) ==> r.offset == Some(
                (start + next.read) as u64,
            ) && start + next.read + r.max_len <= start + t.target
            &&& half.read + next_len(half, ideal_len) <= t.target
            &&& source_tracks(next, start)
            &&& source_tracks(single, start)
            &&& source_tracks(half, start)
            &&& t.after_drain(other).0.offset == t.offset
            &&& destination_tried(t, other).offset == t.offset
            &&& ctx.after_dest(Attempt::Tried(other)).transfer.offset == t.offset
        }),
{
}

/// A file is written from front to back without gaps, in every style of use:
/// after each call the next one starts where the range starts plus what has been
/// written, and goes no further than the end of the range. What is done at the
/// source does not move it.
pub proof fn next_write_follows_the_last<F>(
    t: TransferView<F>,
    need_flush: bool,
    start: int,
    off: u64,
    spliced: Spliced,
    other: Spliced,
)
    requires
        t.written < t.read <= t.target <= usize::MAX,
        t.pipe.drain_fd is Some,
        t.offset == Offset::Out(off),
        off == start + t.written,
        advanced(off, spliced),
        spliced.result matches Ok(n) ==> n <= t.read - t.written,
    ensures
        ({
            let ctx = SpliceIoCtxView { transfer: t, need_flush };
            let tried = Attempt::Tried(spliced);
            let next = t.after_drain(spliced).0;
            let single = destination_tried(t, spliced);
            let half = ctx.after_dest(tried).transfer;
            &&& next.offset.destination() == Some((start + next.written) as u64)
            &&& single.offset.destination() == Some((start + single.written) as u64)
            &&& half.offset.destination() == Some((start + half.written) as u64)
            &&& next.written == single.written == half.written <= t.read
            &&& next.drain_request() matches Some(r) ==> r.offset == Some(
                (start + next.written) as u64,
            ) && start + next.written + r.max_len <= start + t.target
            &&& destination_tracks(next, start)
            &&& destination_tracks(single, start)
            &&& destination_tracks(half, start)
            &&& t.after_fill(other).0.offset == t.offset
            &&& source_tried(t, other).offset == t.offset
            &&& ctx.after_source(Attempt::Tried(other)).transfer.offset == t.offset
        }),
{
}

/// The three styles of use agree: an attempt with bytes to move leaves the same
/// counts, the same offset and the same fill side in each.
pub proof fn styles_of_use_agree<F>(t: TransferView<F>, need_flush: bool, spliced: Spliced)
    requires
        t.written <= t.read <= t.target,
        t.pipe.fill_fd is Some,
        t.pipe.drain_fd is Some,
    ensures
        ({
            let ctx = SpliceIoCtxView { transfer: t, need_flush };
            let tried = Attempt::Tried(spliced);
            &&& source_tried(t, spliced) == t.after_fill(spliced).0
            &&& t.read < t.target && spliced.result is Ok ==> ctx.after_source(tried).transfer
                == t.after_fill(spliced).0
            &&& destination_tried(t, spliced) == t.after_drain(spliced).0
            &&& t.written < t.read && (spliced.result matches Ok(n) && n > 0) ==> ctx.after_dest(
                tried,
            ).transfer == t.after_drain(spliced).0
        }),
{
}

// The state machine.

/// A transfer waits only when something that was tried has to wait: a descriptor
/// that is not ready, or a flush or a shutdown that is not through. Every other
/// event is answered at once, so a task never sleeps with nobody to wake it.
pub proof fn waits_only_when_told_to<F>(io: SpliceIoView<F>, event: Event)
    ensures
        io.step(event).1 is Pending <==> event is Waiting || event == Event::Attempted(
            Attempt::NotReady,
        ),
        io.step(event).1 is Pending ==> io.step(event).0 == io,
{
}

/// A transfer is over exactly when readiness could not be found out, or when the
/// destination has been shut down. Every other event that came of an action is
/// answered with going on, or with waiting.
pub proof fn over_only_after_shutdown<F>(io: SpliceIoView<F>, event: Event)
    ensures
        io.step(event).1 is Ready <==> (event matches Event::Attempted(Attempt::ReadinessFailed(_)))
            || (event is Completed && io.state is Finished),
        event matches Event::Attempted(Attempt::ReadinessFailed(e)) ==> io.step(event) == (
            io,
            Step::<()>::Ready(Err(e)),
        ),
        event matches Event::Attempted(Attempt::Tried(_)) ==> io.step(event).1 is Again,
        event is Completed && !(io.state is Finished) ==> io.step(event).1 is Again,
{
}

/// A try at the source counts what came in and follows the offset. It is the
/// destination's turn then, also at the end of the source. A call that would have
/// had to wait leaves the turn with the source; any other error ends the
/// transfer.
pub proof fn source_hands_over_to_destination<F>(io: SpliceIoView<F>, spliced: Spliced)
    requires
        io.state is Fill,
        io.ctx.read <= io.ctx.target,
        spliced.result matches Ok(n) ==> n <= io.ctx.target - io.ctx.read,
    ensures
        ({
            let after = io.step(Event::Attempted(Attempt::Tried(spliced))).0;
            match spliced.result {
                Ok(n) => {
                    &&& after.state is Drain
                    &&& only_source_side(io.ctx, after.ctx)
                    &&& after.ctx.read == io.ctx.read + n
                    &&& after.ctx.pipe.fill_fd == (if n > 0 {
                        io.ctx.pipe.fill_fd
                    } else {
                        None
                    })
                    &&& if io.ctx.read < io.ctx.target {
                        source_offset_followed(io.ctx, after.ctx, spliced.offset)
                    } else {
                        after.ctx.offset == io.ctx.offset
                    }
                },
                Err(e) => {
                    &&& source_call_booked(io.ctx, after.ctx, spliced)
                    &&& after.state == (if e.kind == ErrorKind::WouldBlock {
                        TransferState::Fill
                    } else {
                        TransferState::Finished { error: Some(e) }
                    })
                },
            }
        }),
{
}

/// A try at the destination counts what went out and follows the offset. The
/// transfer is over when the source is done and nothing is left in the pipe, and
/// then the drain side is closed if the pipe was found empty; else the
/// destination is flushed. A call that would have had to wait leaves the turn
/// with the destination; any other error ends the transfer.
pub proof fn destination_is_flushed_or_done<F>(io: SpliceIoView<F>, spliced: Spliced)
    requires
        io.state is Drain,
        io.ctx.written <= io.ctx.read,
        spliced.result matches Ok(n) ==> n <= io.ctx.read - io.ctx.written,
    ensures
        ({
            let after = io.step(Event::Attempted(Attempt::Tried(spliced))).0;
            match spliced.result {
                Ok(n) => {
                    &&& only_destination_side(io.ctx, after.ctx)
                    &&& after.ctx.written == io.ctx.written + n
                    &&& after.ctx.pipe.drain_fd == (if io.ctx.written == io.ctx.read
                        && io.ctx.pipe.fill_fd is None {
                        None
                    } else {
                        io.ctx.pipe.drain_fd
                    })
                    &&& if io.ctx.written < io.ctx.read {
                        destination_offset_followed(io.ctx, after.ctx, spliced.offset)
                    } else {
                        after.ctx.offset == io.ctx.offset
                    }
                    &&& after.state == (if io.ctx.pipe.fill_fd is None && io.ctx.written + n
                        == io.ctx.read {
                        TransferState::Finished { error: None }
                    } else {
                        TransferState::Flushing
                    })
                },
                Err(e) => {
                    &&& destination_call_booked(io.ctx, after.ctx, spliced)
                    &&& after.state == (if e.kind == ErrorKind::WouldBlock {
                        TransferState::Drain
                    } else {
                        TransferState::Finished { error: Some(e) }
                    })
                },
            }
        }),
{
}

/// Once the destination is flushed it is its turn again as long as the pipe holds
/// bytes, and the source's turn when the pipe is empty. A flush that fails ends
/// the transfer. Neither touches the books.
pub proof fn flush_passes_the_turn_on<F>(io: SpliceIoView<F>, result: Result<(), IoError>)
    requires
        io.state is Flushing,
        io.ctx.written <= io.ctx.read,
    ensures
        ({
            let (after, step) = io.step(Event::Completed(result));
            &&& after.ctx == io.ctx
            &&& step is Again
            &&& result is Ok ==> (after.state is Drain <==> io.ctx.written < io.ctx.read)
            &&& result is Ok ==> (after.state is Fill <==> io.ctx.written == io.ctx.read)
            &&& result matches Err(e) ==> after.state == (TransferState::Finished {
                error: Some(e),
            })
        }),
{
}

/// When the destination has been shut down the transfer is over, with the error
/// that it held, or else with what came of the shutdown. It holds no error any
/// more, and its books stay what they are.
pub proof fn shutdown_ends_the_transfer<F>(io: SpliceIoView<F>, result: Result<(), IoError>)
    requires
        io.state is Finished,
    ensures
        ({
            let (after, step) = io.step(Event::Completed(result));
            &&& after.ctx == io.ctx
            &&& after.state == (TransferState::Finished { error: None })
            &&& match io.state->error {
                Some(e) => step == Step::<()>::Ready(Err(e)),
                None => match result {
                    Ok(_) => step == Step::<()>::Ready(Ok(())),
                    Err(e) => step == Step::<()>::Ready(Err(e)),
                },
            }
            &&& io.held() == io.state->error
            &&& after.held() is None
        }),
{
}

/// What is done next is what the state says, with a call for what is left.
pub proof fn actions_follow_the_state<F>(io: SpliceIoView<F>)
    requires
        io.ctx.written <= io.ctx.read <= io.ctx.target <= usize::MAX,
    ensures
        match io.action() {
            Action::Fill(request) => io.state is Fill && asks_for(
                request,
                io.ctx.target - io.ctx.read,
                if io.ctx.offset is In {
                    Some(io.ctx.offset->In_0)
                } else {
                    None
                },
            ),
            Action::Drain(request) => io.state is Drain && asks_for(
                request,
                io.ctx.read - io.ctx.written,
                if io.ctx.offset is Out {
                    Some(io.ctx.offset->Out_0)
                } else {
                    None
                },
            ),
            Action::Flush => io.state is Flushing,
            Action::Shutdown => io.state is Finished,
        },
{
}

/// Whatever can come of an action is accepted: any readiness, any error, and any
/// number of bytes up to what was wanted or there; and nothing that cannot.
pub proof fn every_outcome_is_accepted<F>(io: SpliceIoView<F>, event: Event)
    ensures
        io.admits(event) <==> match event {
            Event::Attempted(attempt) => {
                &&& io.state is Fill || io.state is Drain
                &&& attempt matches Attempt::Tried(spliced) ==> (spliced.result matches Ok(n)
                    ==> n <= (if io.state is Fill {
                    io.ctx.target - io.ctx.read
                } else {
                    io.ctx.read - io.ctx.written
                }))
            },
            _ => io.state is Flushing || io.state is Finished,
        },
{
}

/// A transfer can be polled from its beginning, whatever its target, its pipe and
/// its offset; and one that is over can be, whatever became of it.
pub proof fn every_transfer_can_be_polled<F>(io: SpliceIoView<F>)
    requires
        io.ctx.written <= io.ctx.read <= io.ctx.target <= usize::MAX,
    ensures
        io.ctx.read == 0 && io.state is Fill && io.ctx.pipe.fill_fd is Some
            && io.ctx.pipe.drain_fd is Some ==> io.wf() && io.pollable(),
        io.state is Finished ==> io.pollable(),
        io.state matches TransferState::Finished { error: Some(_) } ==> io.wf(),
{
}

/// Two directions are over when both are. The error of the first comes before
/// that of the second, and there is none only if neither has one.
pub proof fn both_directions_answer(first: Poll, second: Poll)
    ensures
        match both(first, second) {
            Poll::Pending => first is Pending || second is Pending,
            Poll::Ready(Ok(_)) => {
                &&& first matches Poll::Ready(Ok(_))
                &&& second matches Poll::Ready(Ok(_))
            },
            Poll::Ready(Err(e)) => match first {
                Poll::Pending => false,
                Poll::Ready(Err(own)) => e == own && !(second is Pending),
                Poll::Ready(Ok(_)) => second matches Poll::Ready(Err(own)) && e == own,
            },
        },
        first is Pending || second is Pending ==> both(first, second) is Pending,
{
}

/// A direction is left as it is by what became of the other, but for an error
/// that cannot be returned yet: that is kept for the next poll, unless an earlier
/// one is kept already. Its books never change.
pub proof fn directions_keep_to_themselves<F>(io: SpliceIoView<F>, own: Poll, other: Poll)
    ensures
        ({
            let after = kept(io, own, other);
            let holds = io.state matches TransferState::Finished { error: Some(_) };
            &&& after.ctx == io.ctx
            &&& !(other is Pending) || holds ==> after == io
            &&& !(own matches Poll::Ready(Err(_))) ==> after == io
            &&& other is Pending && !holds ==> (own matches Poll::Ready(Err(e)) ==> after.state
                == (TransferState::Finished { error: Some(e) }))
        }),
{
}

} // verus!
