use read_process_memory::linux::{after_vm_readv, start, Action, ENOSYS, EPERM};
use read_process_memory::ReadError;

#[test]
fn linux_zero_length_finishes_without_a_call() {
    assert_eq!(start(0), Action::Finish(Ok(())));
}

#[test]
fn linux_nonempty_read_begins_with_vm_readv() {
    assert_eq!(start(32), Action::VmReadv);
}

#[test]
fn linux_full_count_succeeds() {
    assert_eq!(after_vm_readv(32, 32, 0), Action::Finish(Ok(())));
}

#[test]
fn linux_missing_syscall_falls_back_to_proc_mem() {
    assert_eq!(after_vm_readv(32, -1, ENOSYS), Action::ReadProcMem);
    assert_eq!(ENOSYS, 38);
}

#[test]
fn linux_denied_syscall_falls_back_to_proc_mem() {
    assert_eq!(after_vm_readv(32, -1, EPERM), Action::ReadProcMem);
    assert_eq!(EPERM, 1);
}

#[test]
fn linux_other_failure_is_fatal() {
    // ESRCH: no such process.
    assert_eq!(after_vm_readv(32, -1, 3), Action::Finish(Err(ReadError::Os(3))));
    // EFAULT: the remote range is not mapped.
    assert_eq!(after_vm_readv(32, -1, 14), Action::Finish(Err(ReadError::Os(14))));
}

#[test]
fn linux_short_count_is_an_error() {
    assert_eq!(
        after_vm_readv(20000, 4096, 0),
        Action::Finish(Err(ReadError::ShortRead { expected: 20000, got: 4096 }))
    );
    assert_eq!(
        after_vm_readv(8, 0, 0),
        Action::Finish(Err(ReadError::ShortRead { expected: 8, got: 0 }))
    );
}
