//! The error codes that the library reports.

use vstd::prelude::*;

verus! {

/// Why an operation failed.
#[derive(Clone, Copy, Debug, PartialEq, Eq, Structural)]
pub enum Error {
    /// An argument is out of the range that the operation accepts.
    InvalidArgument,
    /// The platform could not provide the memory asked for.
    OutOfMemory,
    /// A resource is held by someone else.
    Busy,
}

impl Error {
    /// The error code as the C side of the driver knows it: the negated
    /// `errno` value.
    pub open spec fn errno(self) -> int {
        match self {
            Error::InvalidArgument => -22,
            Error::OutOfMemory => -12,
            Error::Busy => -16,
        }
    }

    /// Returns the kernel error code of `self`.
    pub fn to_errno(self) -> (r: i32)
        ensures
            r == self.errno(),
    {
        match self {
            Error::InvalidArgument => -22,
            Error::OutOfMemory => -12,
            Error::Busy => -16,
        }
    }
}

} // verus!
