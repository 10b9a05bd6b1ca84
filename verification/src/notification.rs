//! What the event handler does to acknowledge a notification.
use vstd::prelude::*;

verus! {

/// How a notification is acknowledged.
#[derive(Clone, Copy, Debug, PartialEq, Eq, Structural)]
pub enum Confirmation {
    /// Nothing is left to do.
    Nothing,
    /// Read `len` bytes from `fd`. What the read returns does not matter.
    Read { fd: i32, len: usize },
}

} // verus!
