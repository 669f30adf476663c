//! What a transfer has moved.

use crate::error::IoError;
use vstd::prelude::*;

verus! {

/// Bytes moved by a transfer, regardless of any errors.
#[derive(Debug)]
pub struct TransferReport {
    /// The number of bytes that have been transferred from a to b.
    pub tx: usize,
    /// The number of bytes that have been transferred from b to a.
    pub rx: usize,
    /// The error that ended the transfer, if any.
    pub error: Option<IoError>,
}

impl TransferReport {
    /// The bytes of both directions together.
    pub fn sum(&self) -> (total: usize)
        requires
            self.tx + self.rx <= usize::MAX,
        ensures
            total == self.tx + self.rx,
    {
        self.tx + self.rx
    }

    /// One report for two halves of a transfer. Where both halves failed, the
    /// error of `self` stands.
    pub fn merge(self, other: TransferReport) -> (merged: TransferReport)
        requires
            self.tx + other.tx <= usize::MAX,
            self.rx + other.rx <= usize::MAX,
        ensures
            merged.tx == self.tx + other.tx,
            merged.rx == self.rx + other.rx,
            merged.error == (if self.error is Some {
                self.error
            } else {
                other.error
            }),
    {
        TransferReport {
            tx: self.tx + other.tx,
            rx: self.rx + other.rx,
            error: if self.error.is_some() {
                self.error
            } else {
                other.error
            },
        }
    }
}

} // verus!
