//! Single attempts on each of the contexts.

use splicer::context::{FromSource, SpliceIoCtx, ToDest};
use splicer::error::{ErrorKind, IoError};
use splicer::pipe::{Pipe, RawPipe, MAXIMUM_PIPE_SIZE};
use splicer::size::NonZeroSize;
use splicer::splice::{SpliceCtx, SpliceOutcome};
use splicer::splicer::Splicer;
use splicer::transfer::{Attempt, SpliceRequest, Spliced, Step};
use splicer::{IsFile, IsNotFile};

#[derive(Debug)]
struct Sock;
impl IsNotFile for Sock {}

#[derive(Debug)]
struct Disk;
impl IsFile for Disk {}

fn new_pipe() -> Result<Pipe<u32>, IoError> {
    Pipe::new(Ok(RawPipe {
        drain_fd: 3,
        fill_fd: 4,
        resized: Ok(4096),
    }))
}

fn moved(n: usize) -> Spliced {
    Spliced {
        offset: None,
        result: Ok(n),
    }
}

fn failed(kind: ErrorKind) -> Spliced {
    Spliced {
        offset: None,
        result: Err(IoError::new(kind, "scripted")),
    }
}

fn request(max_len: usize) -> Option<SpliceRequest> {
    Some(SpliceRequest {
        offset: None,
        max_len,
    })
}

#[test]
fn ctx_fills_and_drains() {
    let mut ctx: SpliceCtx<Sock, Sock, u32> = SpliceCtx::new(new_pipe()).unwrap();
    assert_eq!(
        ctx.try_splice_from_source(moved(4096)),
        Ok(SpliceOutcome::BytesWritten(4096))
    );
    assert!(ctx.pipe_has_data());
    assert!(ctx.pipe_is_full());
    assert_eq!(ctx.dest_request(), request(4096));
    assert_eq!(
        ctx.try_splice_to_dest(moved(96)),
        Ok(SpliceOutcome::BytesWritten(96))
    );
    assert!(!ctx.pipe_is_full());
    assert_eq!(ctx.dest_request(), request(4000));
    assert_eq!(
        ctx.try_splice_to_dest(moved(0)),
        Ok(SpliceOutcome::NoProgress)
    );
    assert_eq!(
        ctx.try_splice_to_dest(moved(4000)),
        Ok(SpliceOutcome::BytesWritten(4000))
    );
    assert_eq!(
        ctx.try_splice_to_dest(moved(0)),
        Ok(SpliceOutcome::NoProgress)
    );
    assert!(!ctx.pipe().is_drain_done());
    assert_eq!(
        ctx.try_splice_from_source(moved(0)),
        Ok(SpliceOutcome::Closed)
    );
    assert!(ctx.is_source_done());
    assert!(ctx.is_finished());
    assert_eq!(
        ctx.try_splice_to_dest(moved(0)),
        Ok(SpliceOutcome::Closed)
    );
    assert!(ctx.pipe().is_drain_done());
    let report = ctx.traffic_client_tx(None);
    assert_eq!((report.tx, report.rx), (4096, 0));
    let report = ctx.traffic_client_rx(None);
    assert_eq!((report.tx, report.rx), (0, 4096));
}

#[test]
fn ctx_closes_at_its_target() {
    let mut ctx: SpliceCtx<Sock, Sock, u32> =
        SpliceCtx::new(new_pipe()).unwrap().with_target_len(10);
    assert_eq!(
        ctx.try_splice_from_source(moved(10)),
        Ok(SpliceOutcome::BytesWritten(10))
    );
    assert_eq!(ctx.source_request(), None);
    assert!(!ctx.is_source_done());
    assert_eq!(
        ctx.try_splice_from_source(moved(0)),
        Ok(SpliceOutcome::Closed)
    );
    assert!(ctx.is_source_done());
    assert_eq!(ctx.bytes_read(), 10);
}

/// A call is never asked to move more than the limit for one, on either side of
/// the pipe and in every style of use.
#[test]
fn one_call_is_limited() {
    let limit = request(1 << 20);
    let long = 3 * MAXIMUM_PIPE_SIZE + 1;

    let mut ctx: SpliceCtx<Sock, Sock, u32> =
        SpliceCtx::new(new_pipe()).unwrap().with_target_len(long);
    assert_eq!(ctx.source_request(), limit);
    ctx.try_splice_from_source(moved(MAXIMUM_PIPE_SIZE)).unwrap();
    ctx.try_splice_from_source(moved(MAXIMUM_PIPE_SIZE)).unwrap();
    assert_eq!(ctx.dest_request(), limit);
    assert_eq!(ctx.source_request(), limit);
    ctx.try_splice_from_source(moved(MAXIMUM_PIPE_SIZE)).unwrap();
    assert_eq!(ctx.source_request(), request(1));

    let mut s: Splicer<Sock, Sock, u32> = Splicer::new(new_pipe()).unwrap().with_target_len(long);
    assert_eq!(s.source_request(), limit);
    s.try_splice_from_source(moved(long - 2)).unwrap();
    assert_eq!(s.source_request(), request(2));
    assert_eq!(s.dest_request(), limit);
    s.try_splice_to_dest(moved(long - 7)).unwrap();
    assert_eq!(s.dest_request(), request(5));

    let mut ctx: SpliceIoCtx<Sock, Sock, u32> =
        SpliceIoCtx::new(new_pipe()).unwrap().with_target_len(long);
    assert_eq!(ctx.begin_splice_from_source(None), limit);
    assert_eq!(
        ctx.begin_splice_from_source(NonZeroSize::new(MAXIMUM_PIPE_SIZE + 1)),
        limit
    );
    assert_eq!(
        ctx.begin_splice_from_source(NonZeroSize::new(MAXIMUM_PIPE_SIZE - 1)),
        request((1 << 20) - 1)
    );
    ctx.poll_splice_from_source(tried(long));
    assert!(matches!(
        ctx.begin_splice_to_dest(),
        ToDest::Splice(SpliceRequest {
            offset: None,
            max_len: MAXIMUM_PIPE_SIZE
        })
    ));
}

#[test]
fn ctx_errors_change_no_counter() {
    let mut ctx: SpliceCtx<Sock, Sock, u32> = SpliceCtx::new(new_pipe()).unwrap();
    let e = ctx
        .try_splice_from_source(failed(ErrorKind::ConnectionReset))
        .unwrap_err();
    assert_eq!(e.kind, ErrorKind::ConnectionReset);
    assert_eq!(ctx.bytes_read(), 0);
    assert!(!ctx.is_source_done());
    ctx.try_splice_from_source(moved(5)).unwrap();
    let e = ctx
        .try_splice_to_dest(failed(ErrorKind::BrokenPipe))
        .unwrap_err();
    assert_eq!(e.kind, ErrorKind::BrokenPipe);
    assert_eq!(ctx.bytes_written(), 0);
}

#[test]
fn ctx_follows_the_file_offset() {
    let mut ctx: SpliceCtx<Disk, Sock, u32> =
        SpliceCtx::with_input_file(100, Some(10), Some(60), new_pipe()).unwrap();
    ctx.try_splice_from_source(Spliced {
        offset: Some(30),
        result: Ok(20),
    })
    .unwrap();
    assert_eq!(
        ctx.source_request(),
        Some(SpliceRequest {
            offset: Some(30),
            max_len: 30
        })
    );
    assert_eq!(ctx.dest_request(), request(20));

    let mut ctx: SpliceCtx<Sock, Disk, u32> =
        SpliceCtx::with_output_file(100, Some(10), None, new_pipe()).unwrap();
    ctx.try_splice_from_source(moved(25)).unwrap();
    assert_eq!(
        ctx.dest_request(),
        Some(SpliceRequest {
            offset: Some(10),
            max_len: 25
        })
    );
    ctx.try_splice_to_dest(Spliced {
        offset: Some(15),
        result: Ok(5),
    })
    .unwrap();
    assert_eq!(
        ctx.dest_request(),
        Some(SpliceRequest {
            offset: Some(15),
            max_len: 20
        })
    );
}

#[test]
fn splicer_attempts() {
    let mut s: Splicer<Sock, Sock, u32> = Splicer::new(new_pipe()).unwrap().with_target_len(10);
    assert_eq!(s.source_request(), request(10));
    assert_eq!(s.dest_request(), None);
    assert_eq!(s.try_splice_to_dest(moved(7)), Ok(()));
    assert_eq!(s.bytes_written(), 0);
    assert_eq!(s.try_splice_from_source(moved(6)), Ok(()));
    assert_eq!(s.source_request(), request(4));
    assert_eq!(s.dest_request(), request(6));
    let e = s.try_splice_to_dest(moved(0)).unwrap_err();
    assert_eq!(e.kind, ErrorKind::WriteZero);
    assert_eq!(s.try_splice_to_dest(moved(6)), Ok(()));
    assert_eq!(s.try_splice_from_source(moved(4)), Ok(()));
    assert!(!s.pipe().is_fill_done());
    assert_eq!(s.source_request(), None);
    assert_eq!(s.try_splice_from_source(moved(4)), Ok(()));
    assert!(s.pipe().is_fill_done());
    assert_eq!(s.bytes_read(), 10);
    assert!(!s.is_finished());
    assert_eq!(s.try_splice_to_dest(moved(4)), Ok(()));
    assert!(s.is_finished());
    assert_eq!(s.traffic_client_tx(None).tx, 10);
    assert_eq!(s.traffic_client_rx(None).rx, 10);
}

#[test]
fn splicer_errors_and_end_of_source() {
    let mut s: Splicer<Sock, Sock, u32> = Splicer::new(new_pipe()).unwrap();
    let e = s
        .try_splice_from_source(failed(ErrorKind::WouldBlock))
        .unwrap_err();
    assert_eq!(e.kind, ErrorKind::WouldBlock);
    assert!(!s.pipe().is_fill_done());
    assert_eq!(s.try_splice_from_source(moved(3)), Ok(()));
    let e = s
        .try_splice_to_dest(failed(ErrorKind::BrokenPipe))
        .unwrap_err();
    assert_eq!(e.kind, ErrorKind::BrokenPipe);
    assert_eq!(s.bytes_written(), 0);
    assert_eq!(s.try_splice_from_source(moved(0)), Ok(()));
    assert!(s.pipe().is_fill_done());
    assert_eq!(s.source_request(), None);
    assert_eq!(s.try_splice_from_source(moved(3)), Ok(()));
    assert_eq!(s.bytes_read(), 3);
}

fn tried(n: usize) -> Attempt {
    Attempt::Tried(moved(n))
}

#[test]
fn half_from_source_reaches_its_target() {
    let mut ctx: SpliceIoCtx<Sock, Sock, u32> =
        SpliceIoCtx::new(new_pipe()).unwrap().with_target_len(10);
    assert_eq!(
        ctx.begin_splice_from_source(NonZeroSize::new(4)),
        request(4)
    );
    match ctx.poll_splice_from_source(tried(4)) {
        Step::Ready(Ok(FromSource::Moved(n))) => assert_eq!(n.get(), 4),
        _ => panic!("expected bytes"),
    }
    assert_eq!(ctx.begin_splice_from_source(None), request(6));
    assert_eq!(
        ctx.begin_splice_from_source(NonZeroSize::new(100)),
        request(6)
    );
    assert!(matches!(
        ctx.poll_splice_from_source(tried(6)),
        Step::Ready(Ok(FromSource::Moved(_)))
    ));
    assert_eq!(ctx.bytes_read(), 10);
    assert!(!ctx.pipe().is_fill_done());
    assert_eq!(ctx.begin_splice_from_source(None), None);
    assert!(ctx.pipe().is_fill_done());
    assert_eq!(ctx.begin_splice_from_source(None), None);
}

#[test]
fn half_from_source_waits_ends_and_fails() {
    let new = || -> SpliceIoCtx<Sock, Sock, u32> { SpliceIoCtx::new(new_pipe()).unwrap() };
    let mut ctx = new();
    assert!(matches!(
        ctx.poll_splice_from_source(Attempt::NotReady),
        Step::Pending
    ));
    assert!(matches!(
        ctx.poll_splice_from_source(Attempt::Tried(failed(ErrorKind::WouldBlock))),
        Step::Again
    ));
    assert!(matches!(
        ctx.poll_splice_from_source(Attempt::Tried(failed(ErrorKind::Interrupted))),
        Step::Again
    ));
    assert!(!ctx.pipe().is_fill_done());
    assert!(matches!(
        ctx.poll_splice_from_source(tried(0)),
        Step::Ready(Ok(FromSource::Done))
    ));
    assert!(ctx.pipe().is_fill_done());

    let mut ctx = new();
    assert!(matches!(
        ctx.poll_splice_from_source(Attempt::Tried(failed(ErrorKind::ConnectionReset))),
        Step::Ready(Err(e)) if e.kind == ErrorKind::ConnectionReset
    ));
    assert!(ctx.pipe().is_fill_done());
    assert!(!ctx.pipe().is_drain_done());

    let mut ctx = new();
    let e = IoError::new(ErrorKind::Other, "gone");
    assert!(matches!(
        ctx.poll_splice_from_source(Attempt::ReadinessFailed(e)),
        Step::Ready(Err(e)) if e.message == "gone"
    ));
    assert!(ctx.pipe().is_fill_done());

    for kind in [ErrorKind::Interrupted, ErrorKind::WouldBlock] {
        let mut ctx = new();
        assert!(matches!(
            ctx.poll_splice_from_source(Attempt::ReadinessFailed(IoError::new(kind, ""))),
            Step::Ready(Err(e)) if e.kind == kind
        ));
        assert!(!ctx.pipe().is_fill_done());
    }
}

#[test]
fn half_from_source_retries_at_the_new_offset() {
    let mut ctx: SpliceIoCtx<Disk, Sock, u32> =
        SpliceIoCtx::with_input_file(100, Some(10), None, new_pipe()).unwrap();
    assert!(matches!(
        ctx.poll_splice_from_source(Attempt::Tried(Spliced {
            offset: Some(12),
            result: Err(IoError::new(ErrorKind::Interrupted, "")),
        })),
        Step::Again
    ));
    assert_eq!(
        ctx.begin_splice_from_source(None),
        Some(SpliceRequest {
            offset: Some(12),
            max_len: 90
        })
    );
}

#[test]
fn half_to_dest_empties_the_pipe() {
    let mut ctx: SpliceIoCtx<Sock, Sock, u32> = SpliceIoCtx::new(new_pipe()).unwrap();
    assert!(matches!(ctx.begin_splice_to_dest(), ToDest::Over(Ok(()))));
    assert!(!ctx.pipe().is_drain_done());
    ctx.poll_splice_from_source(tried(10));
    assert!(matches!(
        ctx.begin_splice_to_dest(),
        ToDest::Splice(SpliceRequest {
            offset: None,
            max_len: 10
        })
    ));
    assert!(!ctx.need_flush());
    assert!(matches!(ctx.poll_splice_to_dest(tried(3)), Step::Again));
    assert!(ctx.need_flush());
    assert!(matches!(
        ctx.begin_splice_to_dest(),
        ToDest::Splice(SpliceRequest { max_len: 7, .. })
    ));
    assert!(matches!(
        ctx.poll_splice_to_dest(Attempt::NotReady),
        Step::Pending
    ));
    assert!(matches!(
        ctx.poll_splice_to_dest(Attempt::Tried(failed(ErrorKind::Interrupted))),
        Step::Again
    ));
    assert!(matches!(ctx.poll_splice_to_dest(tried(7)), Step::Again));
    assert!(matches!(ctx.begin_splice_to_dest(), ToDest::Over(Ok(()))));
    assert!(!ctx.is_finished());
    ctx.poll_splice_from_source(tried(0));
    assert!(matches!(ctx.begin_splice_to_dest(), ToDest::Over(Ok(()))));
    assert!(ctx.is_finished());
    assert_eq!(ctx.bytes_written(), 10);
    assert_eq!(ctx.traffic_client_tx(None).tx, 10);
    assert_eq!(ctx.traffic_client_rx(None).rx, 10);
}

#[test]
fn half_to_dest_fails() {
    let new = || {
        let mut ctx: SpliceIoCtx<Sock, Sock, u32> = SpliceIoCtx::new(new_pipe()).unwrap();
        ctx.poll_splice_from_source(tried(10));
        ctx
    };
    let mut ctx = new();
    assert!(matches!(
        ctx.poll_splice_to_dest(tried(0)),
        Step::Ready(Err(e)) if e.kind == ErrorKind::WriteZero
    ));
    assert!(ctx.pipe().is_drain_done());
    assert!(!ctx.pipe().is_fill_done());
    assert!(matches!(ctx.begin_splice_to_dest(), ToDest::Over(Ok(()))));

    let mut ctx = new();
    assert!(matches!(
        ctx.poll_splice_to_dest(Attempt::Tried(failed(ErrorKind::BrokenPipe))),
        Step::Ready(Err(e)) if e.kind == ErrorKind::BrokenPipe
    ));
    assert!(ctx.pipe().is_drain_done());
    assert!(!ctx.pipe().is_fill_done());

    let mut ctx = new();
    let e = IoError::new(ErrorKind::Other, "gone");
    assert!(matches!(
        ctx.poll_splice_to_dest(Attempt::ReadinessFailed(e)),
        Step::Ready(Err(e)) if e.message == "gone"
    ));
    assert!(ctx.pipe().is_drain_done());

    for kind in [ErrorKind::Interrupted, ErrorKind::WouldBlock] {
        let mut ctx = new();
        assert!(matches!(
            ctx.poll_splice_to_dest(Attempt::ReadinessFailed(IoError::new(kind, ""))),
            Step::Ready(Err(e)) if e.kind == kind
        ));
        assert!(!ctx.pipe().is_drain_done());
    }

    let mut ctx = new();
    ctx.poll_splice_to_dest(tried(11));
    match ctx.begin_splice_to_dest() {
        ToDest::Over(Err(e)) => {
            assert_eq!(e.kind, ErrorKind::Other);
            assert_eq!(e.message, "`bytes_written` larger than `bytes_read`");
        }
        _ => panic!("expected an error"),
    }
    assert!(ctx.pipe().is_drain_done());
}
