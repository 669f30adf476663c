# splicer

`splice(2)` copies for Tokio on Linux, with verified decision logic.

`splice(2)` moves bytes between two descriptors without copying them through
user space, but one of the two has to be a pipe. A copy therefore alternates
between filling a pipe from the source and draining it into the destination.
Which call comes next, for how many bytes and at which file offset, what its
outcome does to the counters, when a side of the pipe closes, and when the copy
waits, fails or is over: all of that is decided in `src/`, which Verus verifies.

- `src/splice.rs` (`SpliceCtx`), `src/splicer.rs` (`Splicer`) and
  `src/context.rs` (`SpliceIoCtx`) keep the books of one direction, in three
  styles of use. They share `src/transfer.rs`.
- `src/io.rs` is the state machine of a whole copy (`SpliceIo`) and of two of
  them back to back (`SpliceBidiIo`).
- `src/pipe.rs`, `src/offset.rs`, `src/size.rs`, `src/error.rs`, `src/fd.rs` and
  `src/transfer_report.rs` hold the parts.
- `src/laws.rs` states and proves what holds of whole copies, over any sequence
  of events: nothing is made up or lost, the target is met, a copy with bytes in
  its pipe never waits for its source, the destination is flushed before the
  end, and the first error that a copy meets is the one that it returns.
- `app/` makes the system calls, waits for readiness through Tokio, and offers
  `copy`, `sendfile` and `copy_bidirectional`.
- `tests/` runs the library against scripted outcomes and against the kernel.

The caller of the library performs each call that it asks for, and reports what
came of it as a plain value.
