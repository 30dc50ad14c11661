use vstd::prelude::*;

verus! {

/// Why a single read of remote memory failed.
#[derive(Clone, Copy, Debug, PartialEq, Eq, Structural)]
pub enum ReadError {
    /// The OS refused the call; the payload is the error code it recorded.
    Os(i32),
    /// The OS call reported success but moved fewer bytes than were asked for.
    ShortRead { expected: usize, got: usize },
}

impl ReadError {
    /// The OS error code carried by this error, if it has one.
    pub fn raw_os_error(&self) -> (r: Option<i32>)
        ensures
            r == match *self {
                ReadError::Os(code) => Some(code),
                ReadError::ShortRead { .. } => None::<i32>,
            },
    {
        match *self {
            ReadError::Os(code) => Some(code),
            ReadError::ShortRead { .. } => None,
        }
    }
}

} // verus!
