//! Linux pipes, see `pipe(7)`.
//!
//! The default size of a pipe depends on the system; it is usually 65536
//! bytes where a page has 4096. It can be changed with `fcntl(2)`, and the
//! kernel answers with the size that the pipe then really has.

use crate::error::{ErrorKind, IoError};
use crate::size::NonZeroSize;
use vstd::prelude::*;

verus! {

/// The most bytes that the kernel is asked to move in a single call to
/// `splice(2)`, and the size that a new pipe is asked to have.
///
/// `splice(2)` moves data through a pipe, and one megabyte is the default limit
/// for the size of one, `/proc/sys/fs/pipe-max-size`. Unprivileged users may be
/// limited further, see `pipe(7)`.
pub const MAXIMUM_PIPE_SIZE: usize = 1_048_576;

/// The size to expect of a pipe when its size is not known.
pub const DEFAULT_PIPE_SIZE: usize = 65_536;

/// A pipe that has just been made and was asked to have [`MAXIMUM_PIPE_SIZE`]
/// bytes.
#[derive(Debug)]
pub struct RawPipe<F> {
    /// The end that bytes leave through (read end).
    pub drain_fd: F,
    /// The end that bytes enter through (write end).
    pub fill_fd: F,
    /// The answer of the kernel: the size that the pipe now has, or why its
    /// size could not be set.
    pub resized: Result<usize, IoError>,
}

/// A pipe with descriptors of type `F`.
#[derive(Debug)]
pub struct Pipe<F> {
    /// The end that bytes leave through (read end). `None` once the drain side
    /// is done.
    drain_fd: Option<F>,
    /// The end that bytes enter through (write end). `None` once the fill side
    /// is done.
    fill_fd: Option<F>,
    /// Pipe size in bytes.
    size: NonZeroSize,
}

/// What a [`Pipe`] is: its open ends and its size.
pub struct PipeView<F> {
    pub drain_fd: Option<F>,
    pub fill_fd: Option<F>,
    pub size: nat,
}

impl<F> PipeView<F> {
    /// A pipe with both ends open.
    pub open spec fn open(raw: RawPipe<F>, size: nat) -> PipeView<F> {
        PipeView { drain_fd: Some(raw.drain_fd), fill_fd: Some(raw.fill_fd), size }
    }
}

/// The error for a pipe of which the kernel says that it holds nothing.
pub open spec fn is_size_error(e: IoError) -> bool {
    e.is_own(ErrorKind::Other, "failed to set pipe size, using default size"@)
}

/// The error for a resize of a pipe that is no longer filled.
pub open spec fn is_fill_done_error(e: IoError) -> bool {
    e.is_own(ErrorKind::Other, "fill-side file descriptor is not available"@)
}

impl<F> View for Pipe<F> {
    type V = PipeView<F>;

    closed spec fn view(&self) -> PipeView<F> {
        PipeView { drain_fd: self.drain_fd, fill_fd: self.fill_fd, size: self.size@ }
    }
}

impl<F> Pipe<F> {
    /// A pipe of the size that the kernel reports for it.
    ///
    /// `made` is the new pipe, or why it could not be made. It is an error, too,
    /// if its size could not be set.
    pub fn new(made: Result<RawPipe<F>, IoError>) -> (pipe: Result<Self, IoError>)
        ensures
            pipe is Ok <==> (made matches Ok(raw) && (raw.resized matches Ok(n) && n > 0)),
            match pipe {
                Ok(p) => made matches Ok(raw) && (raw.resized matches Ok(n) && p@
                    == PipeView::open(raw, n as nat)),
                Err(e) => match made {
                    Ok(raw) => match raw.resized {
                        Ok(_) => is_size_error(e),
                        Err(cause) => e == cause,
                    },
                    Err(cause) => e == cause,
                },
            },
    {
        match made {
            Ok(raw) => match raw.resized {
                Ok(bytes) => match NonZeroSize::new(bytes) {
                    Some(size) => Ok(
                        Pipe { drain_fd: Some(raw.drain_fd), fill_fd: Some(raw.fill_fd), size },
                    ),
                    None => Err(
                        IoError::new(
                            ErrorKind::Other,
                            "failed to set pipe size, using default size",
                        ),
                    ),
                },
                Err(e) => Err(e),
            },
            Err(e) => Err(e),
        }
    }

    /// The descriptor to resize the pipe through.
    pub fn resize_fd(&self) -> (fd: Result<&F, IoError>)
        ensures
            fd is Ok <==> self@.fill_fd is Some,
            match fd {
                Ok(fd) => self@.fill_fd == Some(*fd),
                Err(e) => is_fill_done_error(e),
            },
    {
        match self.fill_fd.as_ref() {
            Some(fd) => Ok(fd),
            None => Err(
                IoError::new(ErrorKind::Other, "fill-side file descriptor is not available"),
            ),
        }
    }

    /// Takes over the size of a pipe that was resized through
    /// [`Pipe::resize_fd`].
    ///
    /// `resized` is the answer of the kernel.
    pub fn with_pipe_size(self, resized: Result<usize, IoError>) -> (pipe: Result<Self, IoError>)
        ensures
            pipe is Ok <==> self@.fill_fd is Some && (resized matches Ok(n) && n > 0),
            match pipe {
                Ok(p) => resized matches Ok(n) && p@ == (PipeView { size: n as nat, ..self@ }),
                Err(e) => if self@.fill_fd is None {
                    is_fill_done_error(e)
                } else {
                    match resized {
                        Ok(_) => e.is_own(ErrorKind::Other, "fcntl returned zero pipe size"@),
                        Err(cause) => e == cause,
                    }
                },
            },
    {
        if self.fill_fd.is_none() {
            return Err(
                IoError::new(ErrorKind::Other, "fill-side file descriptor is not available"),
            );
        }
        match resized {
            Ok(bytes) => match NonZeroSize::new(bytes) {
                Some(size) => Ok(Pipe { drain_fd: self.drain_fd, fill_fd: self.fill_fd, size }),
                None => Err(IoError::new(ErrorKind::Other, "fcntl returned zero pipe size")),
            },
            Err(e) => Err(e),
        }
    }

    /// Closes the drain side.
    pub fn set_drain_done(&mut self)
        ensures
            final(self)@ == (PipeView { drain_fd: None, ..old(self)@ }),
    {
        self.drain_fd = None;
    }

    /// Whether the drain side is closed.
    pub fn is_drain_done(&self) -> (done: bool)
        ensures
            done == (self@.drain_fd is None),
    {
        self.drain_fd.is_none()
    }

    /// The end to put bytes in at, unless it is closed.
    pub fn fill_fd(&self) -> (fd: Option<&F>)
        ensures
            match fd {
                Some(fd) => self@.fill_fd == Some(*fd),
                None => self@.fill_fd is None,
            },
    {
        self.fill_fd.as_ref()
    }

    /// Whether the fill side is closed.
    pub fn is_fill_done(&self) -> (done: bool)
        ensures
            done == (self@.fill_fd is None),
    {
        self.fill_fd.is_none()
    }

    /// Closes the fill side.
    pub fn set_fill_done(&mut self)
        ensures
            final(self)@ == (PipeView { fill_fd: None, ..old(self)@ }),
    {
        self.fill_fd = None;
    }

    /// The end to take bytes out at, unless it is closed.
    pub fn drain_fd(&self) -> (fd: Option<&F>)
        ensures
            match fd {
                Some(fd) => self@.drain_fd == Some(*fd),
                None => self@.drain_fd is None,
            },
    {
        self.drain_fd.as_ref()
    }

    /// The size of the pipe, in bytes.
    pub fn size(&self) -> (size: NonZeroSize)
        ensures
            size@ == self@.size,
    {
        self.size
    }
}

} // verus!
