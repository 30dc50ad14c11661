//! macOS: the target is reached through its Mach task port, and read with one
//! `vm_read_overwrite` call for the whole buffer.
use vstd::prelude::*;

use crate::error::ReadError;

verus! {

/// Mach's `KERN_SUCCESS`.
pub const KERN_SUCCESS: i32 = 0;

/// How to obtain the task port of a process.
#[derive(Clone, Copy, Debug, PartialEq, Eq, Structural)]
pub enum TaskLookup {
    /// The process is the caller itself: `mach_task_self()` is its port.
    OwnTask,
    /// Ask the kernel with `task_for_pid(mach_task_self(), pid, &task)`.
    AskKernel,
}

/// The call the caller must make next, or the end of the read.
#[derive(Clone, Copy, Debug, PartialEq, Eq)]
pub enum Action {
    /// `vm_read_overwrite(task, addr, len, buf, &read_len)`.
    VmReadOverwrite,
    /// The read is over, with this result.
    Finish(Result<(), ReadError>),
}

pub open spec fn task_for_pid_outcome_spec(kr: i32, task: u32, errno: i32) -> Result<u32, ReadError> {
    if kr != KERN_SUCCESS {
        Err(ReadError::Os(errno))
    } else {
        Ok(task)
    }
}

pub open spec fn start_spec(len: usize) -> Action {
    if len == 0 {
        Action::Finish(Ok(()))
    } else {
        Action::VmReadOverwrite
    }
}

/// A short count is reported before the kernel's status is looked at.
pub open spec fn after_vm_read_spec(len: usize, kr: i32, read_len: usize, errno: i32) -> Result<(), ReadError> {
    if read_len != len {
        Err(ReadError::ShortRead { expected: len, got: read_len })
    } else if kr != KERN_SUCCESS {
        Err(ReadError::Os(errno))
    } else {
        Ok(())
    }
}

/// Choose how to look up the task port of `pid`, for a caller whose own
/// process id is `own_pid`. Looking up oneself needs no privilege.
pub fn task_lookup(pid: i32, own_pid: i32) -> (r: TaskLookup)
    ensures
        r == (if pid == own_pid { TaskLookup::OwnTask } else { TaskLookup::AskKernel }),
{
    if pid == own_pid {
        TaskLookup::OwnTask
    } else {
        TaskLookup::AskKernel
    }
}

/// Decide what `task_for_pid` answered: the port on success, else the OS
/// error. A refused lookup never yields a port.
pub fn task_for_pid_outcome(kr: i32, task: u32, errno: i32) -> (r: Result<u32, ReadError>)
    ensures
        r == task_for_pid_outcome_spec(kr, task, errno),
{
    if kr != KERN_SUCCESS {
        Err(ReadError::Os(errno))
    } else {
        Ok(task)
    }
}

/// Begin a read of `len` bytes. A zero-length read finishes at once,
/// successfully, without any call.
pub fn start(len: usize) -> (r: Action)
    ensures
        r == start_spec(len),
{
    if len == 0 {
        Action::Finish(Ok(()))
    } else {
        Action::VmReadOverwrite
    }
}

/// Decide what `vm_read_overwrite` answered for a request of `len` bytes: it
/// may truncate while reporting success, so both the count and the status
/// must agree before the read counts as done.
pub fn after_vm_read(len: usize, kr: i32, read_len: usize, errno: i32) -> (r: Result<(), ReadError>)
    ensures
        r == after_vm_read_spec(len, kr, read_len, errno),
{
    if read_len != len {
        Err(ReadError::ShortRead { expected: len, got: read_len })
    } else if kr != KERN_SUCCESS {
        Err(ReadError::Os(errno))
    } else {
        Ok(())
    }
}

} // verus!
