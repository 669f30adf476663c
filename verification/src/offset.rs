//! File offsets.

use crate::error::{ErrorKind, IoError};
use vstd::prelude::*;

verus! {

/// The file offset of a transfer, if one of its ends is a file.
#[derive(Clone, Copy, Debug, PartialEq, Eq, Structural)]
pub enum Offset {
    /// Neither end is a file.
    Unset,
    /// The source is a file; read it from here.
    In(u64),
    /// The destination is a file; write to it from here.
    Out(u64),
}

/// Where a range of a file starts, when it may be left open.
pub open spec fn range_start(start: Option<u64>) -> u64 {
    match start {
        Some(s) => s,
        None => 0,
    }
}

/// Where a range of a file of `len` bytes ends, when it may be left open.
pub open spec fn range_end(len: u64, end: Option<u64>) -> u64 {
    match end {
        Some(e) => e,
        None => len,
    }
}

/// Whether the range lies within a file of `len` bytes.
pub open spec fn valid_range(len: u64, start: Option<u64>, end: Option<u64>) -> bool {
    range_start(start) <= range_end(len, end) <= len
}

/// How many bytes the range holds.
pub open spec fn range_len(len: u64, start: Option<u64>, end: Option<u64>) -> int {
    range_end(len, end) - range_start(start)
}

impl Offset {
    /// The offset to read at, if the source is a file.
    pub open spec fn source(self) -> Option<u64> {
        match self {
            Offset::In(off) => Some(off),
            _ => None,
        }
    }

    /// The offset to write at, if the destination is a file.
    pub open spec fn destination(self) -> Option<u64> {
        match self {
            Offset::Out(off) => Some(off),
            _ => None,
        }
    }

    /// The offset to read at, for the kernel to advance.
    pub fn off_in(&mut self) -> (off: Option<&mut u64>)
        ensures
            match *old(self) {
                Offset::In(o) => off matches Some(r) && *r == o && *final(self) == Offset::In(
                    *final(r),
                ),
                _ => off is None && *final(self) == *old(self),
            },
    {
        match self {
            Offset::In(off) => Some(off),
            _ => None,
        }
    }

    /// The offset to write at, for the kernel to advance.
    pub fn off_out(&mut self) -> (off: Option<&mut u64>)
        ensures
            match *old(self) {
                Offset::Out(o) => off matches Some(r) && *r == o && *final(self) == Offset::Out(
                    *final(r),
                ),
                _ => off is None && *final(self) == *old(self),
            },
    {
        match self {
            Offset::Out(off) => Some(off),
            _ => None,
        }
    }

    /// How many bytes there are between two offsets of a file of `f_len`
    /// bytes. An open start is the beginning of the file and an open end is
    /// its end.
    pub fn calc_size_to_splice(
        f_len: u64,
        f_offset_start: Option<u64>,
        f_offset_end: Option<u64>,
    ) -> (size: Result<u64, IoError>)
        ensures
            size is Ok <==> valid_range(f_len, f_offset_start, f_offset_end),
            match size {
                Ok(n) => n == range_len(f_len, f_offset_start, f_offset_end),
                Err(e) => e.is_own(ErrorKind::InvalidInput, "invalid offset range"@),
            },
    {
        let start: u64 = f_offset_start.unwrap_or(0);
        let end: u64 = f_offset_end.unwrap_or(f_len);
        if start > end || end > f_len {
            return Err(IoError::new(ErrorKind::InvalidInput, "invalid offset range"));
        }
        Ok(end - start)
    }
}

} // verus!
