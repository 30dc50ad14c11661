use std::cell::Cell;
use std::io;

use read_process_memory::{copy_address, CopyAddress, ReadError};

/// A stand-in for another process: `mem` is mapped at `base`, nothing else is.
struct FakeProcess {
    base: usize,
    mem: Vec<u8>,
    calls: Cell<usize>,
}

impl FakeProcess {
    fn new(base: usize, mem: Vec<u8>) -> FakeProcess {
        FakeProcess { base, mem, calls: Cell::new(0) }
    }
}

impl CopyAddress for FakeProcess {
    fn copy_address(&self, addr: usize, buf: &mut [u8]) -> io::Result<()> {
        self.calls.set(self.calls.get() + 1);
        let start = addr.checked_sub(self.base).ok_or_else(|| io::Error::from_raw_os_error(14))?;
        let end = start.checked_add(buf.len()).ok_or_else(|| io::Error::from_raw_os_error(14))?;
        if end > self.mem.len() {
            return Err(io::Error::from_raw_os_error(14));
        }
        buf.copy_from_slice(&self.mem[start..end]);
        Ok(())
    }
}

fn pattern(size: usize) -> Vec<u8> {
    (0..size).map(|v| (v % (u8::max_value() as usize + 1)) as u8).collect()
}

fn read_test_process(size: usize) -> io::Result<Vec<u8>> {
    let target = FakeProcess::new(0x7f00_0000, pattern(size));
    copy_address(0x7f00_0000, size, &target)
}

#[test]
fn test_read_small() {
    let mem = read_test_process(32).unwrap();
    assert_eq!(mem, (0..32u8).collect::<Vec<u8>>());
}

#[test]
fn test_read_large() {
    const SIZE: usize = 20_000;
    let mem = read_test_process(SIZE).unwrap();
    let expected = (0..SIZE)
        .map(|v| (v % (u8::max_value() as usize + 1)) as u8)
        .collect::<Vec<u8>>();
    assert_eq!(mem, expected);
}

#[test]
fn read_at_an_offset_returns_those_bytes() {
    let target = FakeProcess::new(0x1000, pattern(64));
    let mem = copy_address(0x1010, 4, &target).unwrap();
    assert_eq!(mem, vec![16, 17, 18, 19]);
}

#[test]
fn zero_length_read_never_reaches_the_source() {
    let target = FakeProcess::new(0x1000, Vec::new());
    let mem = copy_address(0xdead_0000, 0, &target).unwrap();
    assert!(mem.is_empty());
    assert_eq!(target.calls.get(), 0);
}

#[test]
fn unmapped_address_fails_with_the_os_error() {
    let target = FakeProcess::new(0x1000, pattern(64));
    let err = copy_address(0x9000, 8, &target).unwrap_err();
    assert_eq!(err.raw_os_error(), Some(14));
    assert_eq!(target.calls.get(), 1);
}

#[test]
fn read_running_past_the_mapping_fails() {
    let target = FakeProcess::new(0x1000, pattern(64));
    assert!(copy_address(0x1038, 16, &target).is_err());
}

#[test]
fn read_error_reports_its_os_code() {
    assert_eq!(ReadError::Os(13).raw_os_error(), Some(13));
    assert_eq!(ReadError::ShortRead { expected: 8, got: 3 }.raw_os_error(), None);
}
