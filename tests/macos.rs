use read_process_memory::macos::{
    after_vm_read, start, task_for_pid_outcome, task_lookup, Action, TaskLookup, KERN_SUCCESS,
};
use read_process_memory::ReadError;

#[test]
fn macos_own_pid_uses_own_task() {
    assert_eq!(task_lookup(412, 412), TaskLookup::OwnTask);
    assert_eq!(task_lookup(413, 412), TaskLookup::AskKernel);
}

#[test]
fn macos_task_lookup_failure_is_reported() {
    // KERN_FAILURE from task_for_pid for a process that does not exist.
    assert_eq!(task_for_pid_outcome(5, 0, 3), Err(ReadError::Os(3)));
    assert_eq!(task_for_pid_outcome(KERN_SUCCESS, 2307, 0), Ok(2307));
}

#[test]
fn macos_zero_length_finishes_without_a_call() {
    assert_eq!(start(0), Action::Finish(Ok(())));
    assert_eq!(start(1), Action::VmReadOverwrite);
}

#[test]
fn macos_short_count_wins_over_kernel_status() {
    assert_eq!(
        after_vm_read(32, 1, 16, 14),
        Err(ReadError::ShortRead { expected: 32, got: 16 })
    );
    assert_eq!(
        after_vm_read(32, KERN_SUCCESS, 16, 0),
        Err(ReadError::ShortRead { expected: 32, got: 16 })
    );
}

#[test]
fn macos_kernel_failure_with_full_count_is_an_error() {
    assert_eq!(after_vm_read(32, 1, 32, 14), Err(ReadError::Os(14)));
}

#[test]
fn macos_full_count_and_success_is_ok() {
    assert_eq!(after_vm_read(32, KERN_SUCCESS, 32, 0), Ok(()));
}
