//! The error type of the resolver.

use vstd::prelude::*;

verus! {

/// Why a resolution or an operation failed.
#[derive(Clone, Copy, Debug, PartialEq, Eq, Hash, Structural)]
pub enum Error {
    /// An error number of the host system: one that a system call reported, or
    /// one that the resolver chose for a path that its policy rejects.
    Os(i32),
    /// The path holds a NUL byte, so no system call can take it.
    InvalidInput,
}

impl Error {
    /// The error number, where there is one.
    pub fn raw_os_error(&self) -> (r: Option<i32>)
        ensures
            r == self.errno(),
    {
        match self {
            Error::Os(e) => Some(*e),
            Error::InvalidInput => None,
        }
    }

    /// The error number, where there is one.
    pub open spec fn errno(&self) -> Option<i32> {
        match *self {
            Error::Os(e) => Some(e),
            Error::InvalidInput => None,
        }
    }
}

} // verus!
