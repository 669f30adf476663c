//! The transfer state machine against scripted descriptors and calls.

use splicer::error::{ErrorKind, IoError};
use splicer::io::{Action, Event, Poll, SpliceBidiIo, SpliceIo, TransferState};
use splicer::pipe::{Pipe, RawPipe};
use splicer::splice::SpliceCtx;
use splicer::transfer::{Attempt, SpliceRequest, Spliced, Step};
use splicer::{IsFile, IsNotFile};
use std::collections::VecDeque;

#[derive(Debug)]
struct Sock;

impl IsNotFile for Sock {}

#[derive(Debug)]
struct Disk;

impl IsFile for Disk {}

type Ctx = SpliceCtx<Sock, Sock, u32>;
type Io = SpliceIo<Sock, Sock, u32>;

/// What one `try_io` does.
enum TryIo {
    CallInner,
    WouldBlock,
    Fail(ErrorKind),
}

/// Byte counts to play back instead of splicing.
struct MockSplicer {
    splice_in: VecDeque<Result<usize, IoError>>,
    splice_out: VecDeque<Result<usize, IoError>>,
}

impl MockSplicer {
    fn new(
        splice_in: Vec<Result<usize, IoError>>,
        splice_out: Vec<Result<usize, IoError>>,
    ) -> Self {
        MockSplicer {
            splice_in: splice_in.into(),
            splice_out: splice_out.into(),
        }
    }
}

/// Readiness and `try_io` outcomes to play back. Without a scripted readiness
/// the descriptor is idle.
struct MockFd {
    ready: VecDeque<Result<(), IoError>>,
    try_io: VecDeque<TryIo>,
    flush: VecDeque<Option<Result<(), IoError>>>,
    shutdown: VecDeque<Option<Result<(), IoError>>>,
}

impl MockFd {
    fn new(ready: usize, try_io: Vec<TryIo>) -> Self {
        MockFd {
            ready: (0..ready).map(|_| Ok(())).collect(),
            try_io: try_io.into(),
            flush: VecDeque::new(),
            shutdown: VecDeque::new(),
        }
    }

    fn attempt(
        &mut self,
        request: Option<SpliceRequest>,
        calls: &mut VecDeque<Result<usize, IoError>>,
    ) -> Event {
        Event::Attempted(match self.ready.pop_front() {
            None => Attempt::NotReady,
            Some(Err(e)) => Attempt::ReadinessFailed(e),
            Some(Ok(())) => {
                let result = match self.try_io.pop_front().expect("ran out of try_io") {
                    TryIo::CallInner => match request {
                        Some(_) => calls.pop_front().expect("ran out of calls"),
                        None => Ok(0),
                    },
                    TryIo::WouldBlock => Err(IoError::new(ErrorKind::WouldBlock, "would block")),
                    TryIo::Fail(kind) => Err(IoError::new(kind, "scripted")),
                };
                Attempt::Tried(Spliced {
                    offset: None,
                    result,
                })
            }
        })
    }
}

fn completion(script: &mut VecDeque<Option<Result<(), IoError>>>) -> Event {
    match script.pop_front() {
        Some(None) => Event::Waiting,
        Some(Some(result)) => Event::Completed(result),
        None => Event::Completed(Ok(())),
    }
}

fn poll_execute(io: &mut Io, s: &mut MockSplicer, r: &mut MockFd, w: &mut MockFd) -> Poll {
    loop {
        let event = match io.next_action() {
            Action::Fill(request) => r.attempt(request, &mut s.splice_in),
            Action::Drain(request) => w.attempt(request, &mut s.splice_out),
            Action::Flush => completion(&mut w.flush),
            Action::Shutdown => completion(&mut w.shutdown),
        };
        match io.poll_execute(event) {
            Step::Again => {}
            Step::Pending => return Poll::Pending,
            Step::Ready(result) => return Poll::Ready(result),
        }
    }
}

fn new_pipe() -> Pipe<u32> {
    Pipe::new(Ok(RawPipe {
        drain_fd: 3,
        fill_fd: 4,
        resized: Ok(65536),
    }))
    .unwrap()
}

fn new_ctx() -> Ctx {
    SpliceCtx::new(Ok(new_pipe())).unwrap()
}

fn tried(result: Result<usize, IoError>) -> Event {
    Event::Attempted(Attempt::Tried(Spliced {
        offset: None,
        result,
    }))
}

fn error(kind: ErrorKind) -> IoError {
    IoError::new(kind, "scripted")
}

/// Partial write: reader supplies 8000 bytes, writer drains only 3000 in the
/// first round, then both descriptors go idle. 5000 bytes are still buffered in
/// the pipe, so the state machine must park on the writer (Drain).
#[test]
fn partial_write_parks_on_writer() {
    let mut splicer = MockSplicer::new(vec![Ok(8000)], vec![Ok(3000)]);
    let mut reader = MockFd::new(1, vec![TryIo::CallInner]);
    let mut writer = MockFd::new(1, vec![TryIo::CallInner]);

    let mut io: Io = new_ctx().into();
    let poll = poll_execute(&mut io, &mut splicer, &mut reader, &mut writer);

    assert!(matches!(poll, Poll::Pending));
    assert_eq!(io.bytes_read(), 8000);
    assert_eq!(io.bytes_written(), 3000);
    assert_eq!(io.state_name(), "Drain");
}

/// Clean drain in one poll: full splice in, full splice out, EOF.
#[test]
fn clean_drain_finishes() {
    let mut splicer = MockSplicer::new(vec![Ok(1000), Ok(0)], vec![Ok(1000)]);
    let mut reader = MockFd::new(2, vec![TryIo::CallInner, TryIo::CallInner]);
    let mut writer = MockFd::new(2, vec![TryIo::CallInner, TryIo::CallInner]);

    let mut io: Io = new_ctx().into();
    let poll = poll_execute(&mut io, &mut splicer, &mut reader, &mut writer);

    assert!(matches!(poll, Poll::Ready(Ok(()))));
    assert_eq!(io.bytes_read(), 1000);
    assert_eq!(io.bytes_written(), 1000);
    assert!(matches!(
        io.state(),
        TransferState::Finished { error: None }
    ));
    assert!(io.is_finished());
    assert!(io.pipe().is_fill_done());
    assert!(io.pipe().is_drain_done());
}

#[test]
fn partial_writes_resume_without_the_reader() {
    let mut splicer = MockSplicer::new(vec![Ok(8000)], vec![Ok(3000), Ok(4999), Ok(1)]);
    let mut reader = MockFd::new(1, vec![TryIo::CallInner]);
    let mut writer = MockFd::new(
        3,
        vec![TryIo::CallInner, TryIo::CallInner, TryIo::CallInner],
    );

    let mut io: Io = new_ctx().into();
    let poll = poll_execute(&mut io, &mut splicer, &mut reader, &mut writer);

    assert!(matches!(poll, Poll::Pending));
    assert_eq!(io.bytes_written(), 8000);
    assert_eq!(io.state_name(), "Fill");
    assert!(!io.pipe_has_data());
}

/// A partial write is flushed, and then it is the writer's turn again.
#[test]
fn partial_writes_are_flushed() {
    let mut io: Io = new_ctx().into();
    io.poll_execute(tried(Ok(8000)));
    io.poll_execute(tried(Ok(3000)));
    assert_eq!(io.next_action(), Action::Flush);
    assert!(matches!(io.poll_execute(Event::Waiting), Step::Pending));
    assert_eq!(io.state_name(), "Flushing");
    io.poll_execute(Event::Completed(Ok(())));
    assert_eq!(
        io.next_action(),
        Action::Drain(Some(SpliceRequest {
            offset: None,
            max_len: 5000
        }))
    );
    io.poll_execute(tried(Ok(0)));
    assert_eq!(io.next_action(), Action::Flush);
    io.poll_execute(Event::Completed(Err(error(ErrorKind::TimedOut))));
    assert_eq!(io.next_action(), Action::Shutdown);
    let step = io.poll_execute(Event::Completed(Ok(())));
    assert!(matches!(step, Step::Ready(Err(e)) if e.kind == ErrorKind::TimedOut));
    assert_eq!((io.bytes_read(), io.bytes_written()), (8000, 3000));
}

#[test]
fn destination_that_takes_nothing_keeps_its_turn() {
    let mut splicer = MockSplicer::new(vec![Ok(10)], vec![Ok(0)]);
    let mut reader = MockFd::new(1, vec![TryIo::CallInner]);
    let mut writer = MockFd::new(1, vec![TryIo::CallInner]);

    let mut io: Io = new_ctx().into();
    let poll = poll_execute(&mut io, &mut splicer, &mut reader, &mut writer);

    assert!(matches!(poll, Poll::Pending));
    assert_eq!(io.state_name(), "Drain");
    assert_eq!(io.bytes_written(), 0);
}

#[test]
fn would_block_waits_again() {
    let mut splicer = MockSplicer::new(vec![Ok(5)], vec![Ok(5)]);
    let mut reader = MockFd::new(2, vec![TryIo::WouldBlock, TryIo::CallInner]);
    let mut writer = MockFd::new(2, vec![TryIo::WouldBlock, TryIo::CallInner]);

    let mut io: Io = new_ctx().into();
    let poll = poll_execute(&mut io, &mut splicer, &mut reader, &mut writer);

    assert!(matches!(poll, Poll::Pending));
    assert_eq!(io.state_name(), "Fill");
    assert_eq!(io.bytes_read(), 5);
    assert_eq!(io.bytes_written(), 5);
}

#[test]
fn failed_read_shuts_down_and_returns() {
    let mut splicer = MockSplicer::new(vec![], vec![]);
    let mut reader = MockFd::new(1, vec![TryIo::Fail(ErrorKind::ConnectionReset)]);
    let mut writer = MockFd::new(0, vec![]);
    writer.shutdown.push_back(None);

    let mut io: Io = new_ctx().into();
    let poll = poll_execute(&mut io, &mut splicer, &mut reader, &mut writer);
    assert!(matches!(poll, Poll::Pending));
    assert_eq!(io.state_name(), "Finished");

    match poll_execute(&mut io, &mut splicer, &mut reader, &mut writer) {
        Poll::Ready(Err(e)) => assert_eq!(e.kind, ErrorKind::ConnectionReset),
        _ => panic!("expected the error"),
    }
}

#[test]
fn failed_write_returns_and_leaves_data() {
    let mut splicer = MockSplicer::new(vec![Ok(7)], vec![Err(error(ErrorKind::BrokenPipe))]);
    let mut reader = MockFd::new(1, vec![TryIo::CallInner]);
    let mut writer = MockFd::new(1, vec![TryIo::CallInner]);

    let mut io: Io = new_ctx().into();
    match poll_execute(&mut io, &mut splicer, &mut reader, &mut writer) {
        Poll::Ready(Err(e)) => assert_eq!(e, error(ErrorKind::BrokenPipe)),
        _ => panic!("expected the error"),
    }
    assert!(io.pipe_has_data());
    let report = io.execute(Err(error(ErrorKind::BrokenPipe)));
    assert_eq!(report.tx, 0);
    assert_eq!(report.rx, 0);
    assert_eq!(report.error, Some(error(ErrorKind::BrokenPipe)));
}

#[test]
fn failed_flush_faults() {
    let mut splicer = MockSplicer::new(vec![Ok(7)], vec![Ok(7)]);
    let mut reader = MockFd::new(1, vec![TryIo::CallInner]);
    let mut writer = MockFd::new(1, vec![TryIo::CallInner]);
    writer.flush.push_back(None);
    writer.flush.push_back(Some(Err(error(ErrorKind::TimedOut))));

    let mut io: Io = new_ctx().into();
    let poll = poll_execute(&mut io, &mut splicer, &mut reader, &mut writer);
    assert!(matches!(poll, Poll::Pending));
    assert_eq!(io.state_name(), "Flushing");
    match poll_execute(&mut io, &mut splicer, &mut reader, &mut writer) {
        Poll::Ready(Err(e)) => assert_eq!(e.kind, ErrorKind::TimedOut),
        _ => panic!("expected the error"),
    }
}

#[test]
fn failed_readiness_returns_at_once() {
    let mut io: Io = new_ctx().into();
    let step = io.poll_execute(Event::Attempted(Attempt::ReadinessFailed(error(
        ErrorKind::Other,
    ))));
    assert!(matches!(step, Step::Ready(Err(e)) if e.kind == ErrorKind::Other));
    assert_eq!(io.state_name(), "Fill");
}

#[test]
fn failed_shutdown_hides_no_earlier_error() {
    let mut io: Io = new_ctx().into();
    assert!(matches!(
        io.poll_execute(tried(Err(error(ErrorKind::BrokenPipe)))),
        Step::Again
    ));
    assert_eq!(io.next_action(), Action::Shutdown);
    let step = io.poll_execute(Event::Completed(Err(error(ErrorKind::NotConnected))));
    assert!(matches!(step, Step::Ready(Err(e)) if e.kind == ErrorKind::BrokenPipe));
    assert!(matches!(
        io.state(),
        TransferState::Finished { error: None }
    ));
}

#[test]
fn failed_shutdown_of_a_good_transfer_is_returned() {
    let mut splicer = MockSplicer::new(vec![Ok(0)], vec![]);
    let mut reader = MockFd::new(1, vec![TryIo::CallInner]);
    let mut writer = MockFd::new(1, vec![TryIo::CallInner]);
    writer
        .shutdown
        .push_back(Some(Err(error(ErrorKind::NotConnected))));

    let mut io: Io = new_ctx().into();
    match poll_execute(&mut io, &mut splicer, &mut reader, &mut writer) {
        Poll::Ready(Err(e)) => assert_eq!(e, error(ErrorKind::NotConnected)),
        _ => panic!("expected the error"),
    }
}

/// The offset is where the last call left it, also after one that failed.
#[test]
fn failed_calls_leave_their_offset() {
    let at = |offset, kind| {
        Event::Attempted(Attempt::Tried(Spliced {
            offset: Some(offset),
            result: Err(error(kind)),
        }))
    };
    let ctx: SpliceCtx<Disk, Sock, u32> =
        SpliceCtx::with_input_file(100, Some(10), None, Ok(new_pipe())).unwrap();
    let mut io = SpliceIo::from(ctx);
    assert!(matches!(
        io.poll_execute(at(15, ErrorKind::WouldBlock)),
        Step::Again
    ));
    assert_eq!(
        io.next_action(),
        Action::Fill(Some(SpliceRequest {
            offset: Some(15),
            max_len: 90
        }))
    );
    io.poll_execute(at(20, ErrorKind::BrokenPipe));
    assert_eq!(io.source_request().unwrap().offset, Some(20));
    assert_eq!(io.next_action(), Action::Shutdown);

    let ctx: SpliceCtx<Sock, Disk, u32> =
        SpliceCtx::with_output_file(100, Some(10), None, Ok(new_pipe())).unwrap();
    let mut io = SpliceIo::from(ctx);
    io.poll_execute(tried(Ok(30)));
    io.poll_execute(at(12, ErrorKind::WouldBlock));
    assert_eq!(
        io.next_action(),
        Action::Drain(Some(SpliceRequest {
            offset: Some(12),
            max_len: 30
        }))
    );
    io.poll_execute(at(13, ErrorKind::BrokenPipe));
    assert_eq!(io.dest_request().unwrap().offset, Some(13));
}

#[test]
fn long_transfers_take_several_calls() {
    let mut io: Io = new_ctx().with_target_len((1 << 20) + 6).into();
    assert_eq!(
        io.next_action(),
        Action::Fill(Some(SpliceRequest {
            offset: None,
            max_len: 1048576
        }))
    );
    io.poll_execute(tried(Ok(1048576)));
    io.poll_execute(tried(Ok(1048576)));
    io.poll_execute(Event::Completed(Ok(())));
    assert_eq!(
        io.next_action(),
        Action::Fill(Some(SpliceRequest {
            offset: None,
            max_len: 6
        }))
    );
}

#[test]
fn target_len_stops_the_transfer() {
    let mut io: Io = new_ctx().with_target_len(16 * 1024).into();
    assert_eq!(
        io.next_action(),
        Action::Fill(Some(SpliceRequest {
            offset: None,
            max_len: 16384
        }))
    );
    io.poll_execute(tried(Ok(10000)));
    assert_eq!(
        io.next_action(),
        Action::Drain(Some(SpliceRequest {
            offset: None,
            max_len: 10000
        }))
    );
    io.poll_execute(tried(Ok(10000)));
    assert_eq!(io.next_action(), Action::Flush);
    io.poll_execute(Event::Completed(Ok(())));
    assert_eq!(
        io.next_action(),
        Action::Fill(Some(SpliceRequest {
            offset: None,
            max_len: 6384
        }))
    );
    io.poll_execute(tried(Ok(6384)));
    io.poll_execute(tried(Ok(6384)));
    io.poll_execute(Event::Completed(Ok(())));
    assert_eq!(io.next_action(), Action::Fill(None));
    io.poll_execute(tried(Ok(0)));
    assert_eq!(io.next_action(), Action::Drain(None));
    io.poll_execute(tried(Ok(0)));
    assert_eq!(io.next_action(), Action::Shutdown);
    let step = io.poll_execute(Event::Completed(Ok(())));
    assert!(matches!(step, Step::Ready(Ok(()))));
    let report = io.execute(Ok(()));
    assert_eq!(report.tx, 16384);
    assert_eq!(report.rx, 0);
    assert!(report.error.is_none());
}

#[test]
fn source_eof_before_target() {
    let mut splicer = MockSplicer::new(vec![Ok(4096), Ok(0)], vec![Ok(4096)]);
    let mut reader = MockFd::new(2, vec![TryIo::CallInner, TryIo::CallInner]);
    let mut writer = MockFd::new(2, vec![TryIo::CallInner, TryIo::CallInner]);
    let mut io: Io = new_ctx().with_target_len(16 * 1024).into();
    let poll = poll_execute(&mut io, &mut splicer, &mut reader, &mut writer);
    assert!(matches!(poll, Poll::Ready(Ok(()))));
    assert_eq!(io.execute(Ok(())).tx, 4096);
}

fn bidi() -> SpliceBidiIo<Sock, Sock, u32> {
    SpliceBidiIo {
        io_sl2sr: new_ctx().into(),
        io_sr2sl: new_ctx().into(),
    }
}

#[test]
fn bidi_is_pending_while_one_direction_is() {
    let mut io = bidi();
    assert!(matches!(
        io.poll_execute(Poll::Pending, Poll::Pending),
        Poll::Pending
    ));
    assert!(matches!(
        io.poll_execute(Poll::Ready(Ok(())), Poll::Pending),
        Poll::Pending
    ));
    assert!(matches!(
        io.poll_execute(Poll::Pending, Poll::Ready(Ok(()))),
        Poll::Pending
    ));
    assert!(matches!(
        io.poll_execute(Poll::Ready(Ok(())), Poll::Ready(Ok(()))),
        Poll::Ready(Ok(()))
    ));
}

#[test]
fn bidi_prefers_the_first_error() {
    let mut io = bidi();
    let poll = io.poll_execute(
        Poll::Ready(Err(error(ErrorKind::BrokenPipe))),
        Poll::Ready(Err(error(ErrorKind::TimedOut))),
    );
    assert!(matches!(poll, Poll::Ready(Err(e)) if e.kind == ErrorKind::BrokenPipe));
    let poll = io.poll_execute(
        Poll::Ready(Ok(())),
        Poll::Ready(Err(error(ErrorKind::TimedOut))),
    );
    assert!(matches!(poll, Poll::Ready(Err(e)) if e.kind == ErrorKind::TimedOut));
}

#[test]
fn bidi_keeps_an_early_error() {
    let mut io = bidi();
    let poll = io.poll_execute(
        Poll::Ready(Err(error(ErrorKind::BrokenPipe))),
        Poll::Pending,
    );
    assert!(matches!(poll, Poll::Pending));
    assert_eq!(io.io_sl2sr.next_action(), Action::Shutdown);
    let first = match io.io_sl2sr.poll_execute(Event::Completed(Ok(()))) {
        Step::Ready(result) => Poll::Ready(result),
        _ => panic!("expected an end"),
    };
    let poll = io.poll_execute(first, Poll::Ready(Ok(())));
    assert!(matches!(poll, Poll::Ready(Err(e)) if e.kind == ErrorKind::BrokenPipe));

    let mut io = bidi();
    let poll = io.poll_execute(Poll::Pending, Poll::Ready(Err(error(ErrorKind::TimedOut))));
    assert!(matches!(poll, Poll::Pending));
    assert_eq!(io.io_sr2sl.state_name(), "Finished");
    assert_eq!(io.io_sl2sr.state_name(), "Fill");
}

/// A direction that fails while the other one is pending returns the error that
/// it met first, however often it is shut down and whatever comes of that.
#[test]
fn bidi_keeps_the_first_error_of_a_direction() {
    let mut io = bidi();
    io.io_sl2sr
        .poll_execute(tried(Err(error(ErrorKind::BrokenPipe))));
    let again = |io: &mut SpliceBidiIo<Sock, Sock, u32>| {
        match io
            .io_sl2sr
            .poll_execute(Event::Completed(Err(error(ErrorKind::NotConnected))))
        {
            Step::Ready(result) => Poll::Ready(result),
            _ => panic!("expected an end"),
        }
    };
    for _ in 0..3 {
        let first = again(&mut io);
        assert!(matches!(
            io.poll_execute(first, Poll::Pending),
            Poll::Pending
        ));
    }
    let first = again(&mut io);
    let poll = io.poll_execute(first, Poll::Ready(Err(error(ErrorKind::TimedOut))));
    assert!(matches!(poll, Poll::Ready(Err(e)) if e.kind == ErrorKind::BrokenPipe));

    let mut io = bidi();
    io.io_sr2sl
        .poll_execute(tried(Err(error(ErrorKind::BrokenPipe))));
    let poll = io.poll_execute(Poll::Pending, Poll::Ready(Err(error(ErrorKind::TimedOut))));
    assert!(matches!(poll, Poll::Pending));
    assert!(matches!(
        io.io_sr2sl.state(),
        TransferState::Finished { error: Some(e) } if e.kind == ErrorKind::BrokenPipe
    ));
}

/// Each direction flushes its destination after the last byte.
#[test]
fn bidi_flushes_both_ends() {
    let mut io = bidi();
    for n in [40, 0] {
        assert!(matches!(io.io_sl2sr.next_action(), Action::Fill(_)));
        io.io_sl2sr.poll_execute(tried(Ok(n)));
        io.io_sr2sl.poll_execute(tried(Ok(n)));
        io.io_sl2sr.poll_execute(tried(Ok(n)));
        io.io_sr2sl.poll_execute(tried(Ok(n)));
        if n > 0 {
            assert_eq!(io.io_sl2sr.next_action(), Action::Flush);
            assert_eq!(io.io_sr2sl.next_action(), Action::Flush);
            io.io_sl2sr.poll_execute(Event::Completed(Ok(())));
            io.io_sr2sl.poll_execute(Event::Completed(Ok(())));
        }
    }
    assert_eq!(io.io_sl2sr.next_action(), Action::Shutdown);
    assert_eq!(io.io_sr2sl.next_action(), Action::Shutdown);
    let report = io.execute(Ok(()));
    assert_eq!((report.tx, report.rx), (40, 40));
}

/// Each direction moves its own target, or all that a shorter source has.
#[test]
fn bidi_meets_both_targets() {
    let mut io: SpliceBidiIo<Sock, Sock, u32> = SpliceBidiIo {
        io_sl2sr: new_ctx().with_target_len(30).into(),
        io_sr2sl: new_ctx().with_target_len(30).into(),
    };
    let run = |first: &mut Io, calls: Vec<usize>| {
        let tries = || calls.iter().map(|_| TryIo::CallInner).collect::<Vec<_>>();
        let played = || calls.iter().map(|n| Ok(*n)).collect::<Vec<_>>();
        let mut splicer = MockSplicer::new(played(), played());
        let mut r = MockFd::new(calls.len(), tries());
        let mut w = MockFd::new(calls.len(), tries());
        poll_execute(first, &mut splicer, &mut r, &mut w)
    };
    let first = run(&mut io.io_sl2sr, vec![10, 20, 0]);
    let second = run(&mut io.io_sr2sl, vec![12, 0]);
    assert!(matches!(
        io.poll_execute(first, second),
        Poll::Ready(Ok(()))
    ));
    let report = io.execute(Ok(()));
    assert_eq!((report.tx, report.rx), (30, 12));
}

#[test]
fn bidi_reports_both_directions() {
    let mut io = bidi();
    io.io_sl2sr.poll_execute(tried(Ok(100)));
    io.io_sl2sr.poll_execute(tried(Ok(60)));
    io.io_sr2sl.poll_execute(tried(Ok(30)));
    let report = io.execute(Err(error(ErrorKind::Other)));
    assert_eq!(report.tx, 60);
    assert_eq!(report.rx, 30);
    assert_eq!(report.sum(), 90);
    assert_eq!(report.error, Some(error(ErrorKind::Other)));
}
