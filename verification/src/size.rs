//! A number of bytes that is never zero.

use vstd::prelude::*;

verus! {

/// A number of bytes that is never zero.
#[derive(Clone, Copy, Debug, PartialEq, Eq)]
pub struct NonZeroSize {
    bytes: usize,
}

impl View for NonZeroSize {
    type V = nat;

    closed spec fn view(&self) -> nat {
        self.bytes as nat
    }
}

impl NonZeroSize {
    #[verifier::type_invariant]
    spec fn non_zero(self) -> bool {
        self.bytes > 0
    }

    /// `bytes`, unless it is zero.
    pub fn new(bytes: usize) -> (size: Option<NonZeroSize>)
        ensures
            size is Some <==> bytes > 0,
            size matches Some(s) ==> s@ == bytes,
    {
        if bytes > 0 {
            Some(NonZeroSize { bytes })
        } else {
            None
        }
    }

    /// The number itself.
    pub fn get(&self) -> (bytes: usize)
        ensures
            bytes == self@,
            bytes > 0,
    {
        proof {
            use_type_invariant(self);
        }
        self.bytes
    }
}

} // verus!
