//! Linux: one `process_vm_readv` call for the whole buffer, with a fallback to
//! reading `/proc/<pid>/mem` when that call is unavailable or not permitted.
use vstd::prelude::*;

use crate::error::ReadError;

verus! {

/// Linux's `ENOSYS`: the kernel lacks `process_vm_readv`.
pub const ENOSYS: i32 = 38;

/// Linux's `EPERM`: the kernel refused `process_vm_readv` to this caller.
pub const EPERM: i32 = 1;

/// The call the caller must make next, or the end of the read.
#[derive(Clone, Copy, Debug, PartialEq, Eq)]
pub enum Action {
    /// `process_vm_readv(pid, [buf], [addr, len], 0)` for the whole buffer.
    VmReadv,
    /// Open `/proc/<pid>/mem` afresh, seek to the address and read exactly
    /// the buffer's length; what that gives is the read's result.
    ReadProcMem,
    /// The read is over, with this result.
    Finish(Result<(), ReadError>),
}

/// The first step of a read of `len` bytes.
pub open spec fn start_spec(len: usize) -> Action {
    if len == 0 {
        Action::Finish(Ok(()))
    } else {
        Action::VmReadv
    }
}

/// The step after `process_vm_readv` returned `ret` for a request of `len`
/// bytes, with `errno` recorded after it.
pub open spec fn after_vm_readv_spec(len: usize, ret: isize, errno: i32) -> Action {
    if ret < 0 {
        if errno == ENOSYS || errno == EPERM {
            Action::ReadProcMem
        } else {
            Action::Finish(Err(ReadError::Os(errno)))
        }
    } else if ret as int != len as int {
        Action::Finish(Err(ReadError::ShortRead { expected: len, got: ret as usize }))
    } else {
        Action::Finish(Ok(()))
    }
}

/// Begin a read of `len` bytes. A zero-length read finishes at once,
/// successfully, without any call.
pub fn start(len: usize) -> (r: Action)
    ensures
        r == start_spec(len),
{
    if len == 0 {
        Action::Finish(Ok(()))
    } else {
        Action::VmReadv
    }
}

/// Decide what `process_vm_readv` answered. A failure for want of the call
/// or of permission turns to `/proc/<pid>/mem`; any other failure ends the
/// read with the OS error; a count short of the request is an error too.
pub fn after_vm_readv(len: usize, ret: isize, errno: i32) -> (r: Action)
    ensures
        r == after_vm_readv_spec(len, ret, errno),
{
    if ret < 0 {
        if errno == ENOSYS || errno == EPERM {
            Action::ReadProcMem
        } else {
            Action::Finish(Err(ReadError::Os(errno)))
        }
    } else if ret as usize != len {
        Action::Finish(Err(ReadError::ShortRead { expected: len, got: ret as usize }))
    } else {
        Action::Finish(Ok(()))
    }
}

} // verus!
