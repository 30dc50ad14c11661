//! Properties that hold of every platform's read protocol.
use vstd::prelude::*;

use crate::error::ReadError;
use crate::{freebsd, linux, macos, windows};

verus! {

/// A zero-length read succeeds at once on every platform, before any call to
/// the OS is asked for.
pub proof fn zero_length_read_is_a_noop()
    ensures
        linux::start_spec(0) == linux::Action::Finish(Ok(())),
        macos::start_spec(0) == macos::Action::Finish(Ok(())),
        windows::start_spec(0) == windows::Action::Finish(Ok(())),
        freebsd::pending(freebsd::initial(0)) == freebsd::Action::Finish(Ok(())),
{
}

/// No platform reports a read as done unless the OS call succeeded and moved
/// exactly the bytes asked for: a failed or truncated transfer, such as one
/// that runs into unmapped memory, always ends in an error.
pub proof fn success_only_on_full_transfer(
    len: usize,
    linux_ret: isize,
    kr: i32,
    read_len: usize,
    ok: i32,
    status: i32,
    transferred: usize,
    errno: i32,
)
    ensures
        linux::after_vm_readv_spec(len, linux_ret, errno) == linux::Action::Finish(Ok(()))
            ==> linux_ret >= 0 && linux_ret as int == len as int,
        macos::after_vm_read_spec(len, kr, read_len, errno) is Ok
            ==> kr == macos::KERN_SUCCESS && read_len == len,
        windows::after_read_spec(len, ok, read_len, errno) is Ok ==> ok != 0 && read_len == len,
        freebsd::io_outcome_spec(status, len, transferred, errno) is Ok
            ==> status != -1 && transferred == len,
        linux_ret < 0 && errno != linux::ENOSYS && errno != linux::EPERM
            ==> linux::after_vm_readv_spec(len, linux_ret, errno) == linux::Action::Finish(Err(ReadError::Os(errno))),
{
}

/// Opening a handle fails, with the OS error and without a handle, exactly
/// when the OS refuses; when the OS grants one, that is the handle, so asking
/// again and being granted the same gives the same handle.
pub proof fn handle_exactly_when_granted(kr: i32, task: u32, handle: usize, errno: i32)
    ensures
        macos::task_for_pid_outcome_spec(kr, task, errno) == (if kr == macos::KERN_SUCCESS {
            Ok(task)
        } else {
            Err(ReadError::Os(errno))
        }),
        windows::open_outcome_spec(handle, errno) == (if handle == 0 {
            Err(ReadError::Os(errno))
        } else {
            Ok(handle)
        }),
{
}

} // verus!
