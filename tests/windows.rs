use read_process_memory::windows::{after_read, open_outcome, start, Action};
use read_process_memory::ReadError;

#[test]
fn windows_null_handle_is_an_error() {
    // ERROR_INVALID_PARAMETER for a pid that names no process.
    assert_eq!(open_outcome(0, 87), Err(ReadError::Os(87)));
    assert_eq!(open_outcome(0x1a4, 0), Ok(0x1a4));
}

#[test]
fn windows_zero_length_finishes_without_a_call() {
    assert_eq!(start(0), Action::Finish(Ok(())));
    assert_eq!(start(20000), Action::ReadProcessMemory);
}

#[test]
fn windows_read_results() {
    // ERROR_PARTIAL_COPY when the range runs into unmapped memory.
    assert_eq!(after_read(20000, 0, 4096, 299), Err(ReadError::Os(299)));
    assert_eq!(
        after_read(20000, 1, 4096, 0),
        Err(ReadError::ShortRead { expected: 20000, got: 4096 })
    );
    assert_eq!(after_read(20000, 1, 20000, 0), Ok(()));
}
