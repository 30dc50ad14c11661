//! Windows: the target is opened with `OpenProcess(PROCESS_VM_READ)` and read
//! with one `ReadProcessMemory` call for the whole buffer.
use vstd::prelude::*;

use crate::error::ReadError;

verus! {

/// The call the caller must make next, or the end of the read.
#[derive(Clone, Copy, Debug, PartialEq, Eq)]
pub enum Action {
    /// `ReadProcessMemory(handle, addr, buf, len, &read)`.
    ReadProcessMemory,
    /// The read is over, with this result.
    Finish(Result<(), ReadError>),
}

pub open spec fn open_outcome_spec(handle: usize, errno: i32) -> Result<usize, ReadError> {
    if handle == 0 {
        Err(ReadError::Os(errno))
    } else {
        Ok(handle)
    }
}

pub open spec fn start_spec(len: usize) -> Action {
    if len == 0 {
        Action::Finish(Ok(()))
    } else {
        Action::ReadProcessMemory
    }
}

pub open spec fn after_read_spec(len: usize, ok: i32, read: usize, errno: i32) -> Result<(), ReadError> {
    if ok == 0 {
        Err(ReadError::Os(errno))
    } else if read != len {
        Err(ReadError::ShortRead { expected: len, got: read })
    } else {
        Ok(())
    }
}

/// Decide what `OpenProcess` answered: a null handle is a failure with the
/// OS error, never a handle.
pub fn open_outcome(handle: usize, errno: i32) -> (r: Result<usize, ReadError>)
    ensures
        r == open_outcome_spec(handle, errno),
{
    if handle == 0 {
        Err(ReadError::Os(errno))
    } else {
        Ok(handle)
    }
}

/// Begin a read of `len` bytes. A zero-length read finishes at once,
/// successfully, without any call.
pub fn start(len: usize) -> (r: Action)
    ensures
        r == start_spec(len),
{
    if len == 0 {
        Action::Finish(Ok(()))
    } else {
        Action::ReadProcessMemory
    }
}

/// Decide what `ReadProcessMemory` answered for a request of `len` bytes,
/// of which it reported `read` as copied.
pub fn after_read(len: usize, ok: i32, read: usize, errno: i32) -> (r: Result<(), ReadError>)
    ensures
        r == after_read_spec(len, ok, read, errno),
{
    if ok == 0 {
        Err(ReadError::Os(errno))
    } else if read != len {
        Err(ReadError::ShortRead { expected: len, got: read })
    } else {
        Ok(())
    }
}

} // verus!
