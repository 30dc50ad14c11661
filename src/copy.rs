use vstd::prelude::*;

verus! {

/// `std::io::Error`, the error that a `CopyAddress` source reports; it is only
/// carried through, never looked into.
#[verifier::external_type_specification]
#[verifier::external_body]
pub struct ExIoError(std::io::Error);

/// A source of remote memory: something that can fill a buffer with the bytes
/// another process holds at a given virtual address.
pub trait CopyAddress {
    /// Try to copy `buf.len()` bytes from `addr` in the process `self`, placing
    /// them in `buf`. On failure the contents of `buf` are unspecified.
    fn copy_address(&self, addr: usize, buf: &mut [u8]) -> (r: std::io::Result<()>)
        ensures
            final(buf)@.len() == old(buf)@.len(),
    ;
}

/// Copy `length` bytes of memory at `addr` from `source` into a fresh buffer.
///
/// A zero-length request succeeds with an empty buffer and never reaches
/// `source`.
pub fn copy_address<T: CopyAddress>(addr: usize, length: usize, source: &T) -> (r: std::io::Result<Vec<u8>>)
    ensures
        r matches Ok(v) ==> v@.len() == length,
        length == 0 ==> (r matches Ok(v) && v@.len() == 0),
{
    if length == 0 {
        return Ok(Vec::new());
    }
    let mut copy: Vec<u8> = vec![0u8; length];
    let outcome = source.copy_address(addr, copy.as_mut_slice());
    match outcome {
        Ok(()) => Ok(copy),
        Err(e) => Err(e),
    }
}

} // verus!
