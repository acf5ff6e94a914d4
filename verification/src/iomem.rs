//! Memory-mapped I/O windows.

use crate::error::Error;
use vstd::prelude::*;

verus! {

/// IO-mapped memory, starting at the base address `ioptr` and spanning
/// `maxlen` bytes.
///
/// The creator (usually a subsystem such as PCI) is responsible for creating
/// the mapping, performing an additional region request and so on.
pub struct IoMem {
    pub ioptr: usize,
    maxlen: usize,
}

impl IoMem {
    /// The address at which the window starts.
    pub closed spec fn spec_ioptr(&self) -> usize {
        self.ioptr
    }

    /// The length of the window in bytes.
    pub closed spec fn spec_maxlen(&self) -> usize {
        self.maxlen
    }

    /// Whether an access of `len` bytes at `offset` stays inside a window of
    /// `maxlen` bytes.
    pub open spec fn in_window(maxlen: usize, offset: usize, len: usize) -> bool {
        offset + len <= maxlen
    }

    /// Describes the window of `maxlen` bytes that starts at `ioptr`.
    ///
    /// A null base address and an empty window are refused as invalid
    /// arguments.
    pub fn new(ioptr: usize, maxlen: usize) -> (r: Result<IoMem, Error>)
        ensures
            match r {
                Ok(mem) => ioptr != 0 && maxlen != 0 && mem.spec_ioptr() == ioptr
                    && mem.spec_maxlen() == maxlen,
                Err(e) => (ioptr == 0 || maxlen == 0) && e == Error::InvalidArgument,
            },
    {
        if ioptr == 0 || maxlen == 0 {
            return Err(Error::InvalidArgument);
        }
        Ok(IoMem { ioptr, maxlen })
    }

    /// Returns the address at which the window starts.
    pub fn ioptr(&self) -> (r: usize)
        ensures
            r == self.spec_ioptr(),
    {
        self.ioptr
    }

    /// Returns the length of the window in bytes.
    pub fn maxlen(&self) -> (r: usize)
        ensures
            r == self.spec_maxlen(),
    {
        self.maxlen
    }

    /// Returns the address of an access of `len` bytes at `offset` from the
    /// start of the window, or refuses the access as an invalid argument
    /// where it does not stay inside the window.
    pub fn get_io_addr(&self, offset: usize, len: usize) -> (r: Result<usize, Error>)
        requires
            offset + len <= usize::MAX,
            self.spec_ioptr() + offset <= usize::MAX,
        ensures
            match r {
                Ok(addr) => IoMem::in_window(self.spec_maxlen(), offset, len) && addr
                    == self.spec_ioptr() + offset,
                Err(e) => !IoMem::in_window(self.spec_maxlen(), offset, len) && e
                    == Error::InvalidArgument,
            },
    {
        if offset + len > self.maxlen {
            return Err(Error::InvalidArgument);
        }
        Ok(self.ioptr + offset)
    }
}

} // verus!
