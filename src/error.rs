use vstd::prelude::*;

verus! {

/// Errors reported by interface provisioning, I/O and teardown.
#[derive(Clone, Debug, PartialEq, Eq)]
pub enum TunTapError {
    /// The device node or the interface is absent.
    NotFound { msg: String },
    /// The kernel returned data that could not be used, such as a malformed name.
    BadData { msg: String },
    /// A system call failed with the given native error code.
    Io { code: i32 },
    /// The descriptor was closed before the operation was issued.
    Closed,
    /// An internal invariant was broken, such as a wait that resolved as
    /// incomplete; not a recoverable condition.
    LogicError,
}

impl TunTapError {
    /// The native error code, for errors that carry one.
    pub fn os_code(&self) -> (r: Option<i32>)
        ensures
            r == (match self {
                TunTapError::Io { code } => Some(*code),
                _ => None,
            }),
    {
        match self {
            TunTapError::Io { code } => Some(*code),
            _ => None,
        }
    }
}

} // verus!
