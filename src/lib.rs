//! Read memory from another process' address space.
//!
//! The library holds the decisions that each platform's read protocol makes
//! (which kernel call comes next, when to fall back, when a trace lock must be
//! released, what a call's answer means) as verified functions over plain
//! values. The calls themselves are made by the caller, who feeds each
//! answer back as an event.

pub mod copy;
pub mod error;
pub mod freebsd;
pub mod laws;
pub mod linux;
pub mod macos;
pub mod windows;

pub use copy::{copy_address, CopyAddress};
pub use error::ReadError;
