//! Errors of the operating system, as the library sees them.

use vstd::prelude::*;

verus! {

/// The error number of an expired timer: what a wait fails with when its
/// timeout runs out.
pub const ETIME: i32 = 62;

/// The error number of an operation that would block: what a read on a
/// non-blocking descriptor fails with when there is nothing to read.
pub const EAGAIN: i32 = 11;

/// A failed system call, by its error number.
#[derive(Clone, Copy, Debug, PartialEq, Eq, Structural)]
pub struct OsError {
    pub code: i32,
}

impl OsError {
    /// The error with the number `code`.
    pub fn from_raw(code: i32) -> (error: OsError)
        ensures
            error.code == code,
    {
        OsError { code }
    }

    /// The error's number.
    pub fn raw(&self) -> (code: i32)
        ensures
            code == self.code,
    {
        self.code
    }

    /// Whether the error says that a timeout ran out.
    pub fn is_timeout(&self) -> (timeout: bool)
        ensures
            timeout == (self.code == ETIME),
    {
        self.code == ETIME
    }

    /// Whether the error says that the operation would have blocked.
    pub fn is_would_block(&self) -> (blocked: bool)
        ensures
            blocked == (self.code == EAGAIN),
    {
        self.code == EAGAIN
    }
}

} // verus!
