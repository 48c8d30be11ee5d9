//! Error values reported by menu construction and window attachment.

use vstd::prelude::*;

verus! {

/// An error arising while building a menu or attaching it to a window.
#[derive(Clone, Copy, Debug, PartialEq, Eq, Structural)]
pub enum Error {
    /// A native call failed; carries the operating system's error code.
    Os { code: u32 },
    /// The target window already has a menu attached.
    MenuExists,
    /// The window does not expose a native handle of the expected platform kind.
    UnexpectedWindowType,
}

impl Error {
    /// The operating system error code, if this error wraps a failed native call.
    pub fn os_code(&self) -> (r: Option<u32>)
        ensures
            r == (match *self {
                Error::Os { code } => Some(code),
                _ => None::<u32>,
            }),
    {
        match *self {
            Error::Os { code } => Some(code),
            _ => None,
        }
    }
}

/// Error for a window object that is not backed by a usable native window.
#[derive(Clone, Copy, Debug, PartialEq, Eq, Structural)]
pub struct NotProperWindow;

impl NotProperWindow {
    /// A human-readable description of the error.
    pub fn message(&self) -> (r: &'static str)
        ensures
            r@ == "the given window is not a proper window"@,
    {
        "the given window is not a proper window"
    }
}

} // verus!
