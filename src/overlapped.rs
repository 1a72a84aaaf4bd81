//! Outcome of reads and writes on the completion-based backend.
//!
//! An operation is issued with a completion record and later queried, either
//! once without blocking (poll mode) or until it resolves (wait mode). The
//! functions here turn what those two calls returned into the operation's
//! result; the calls themselves are made by the caller.
use vstd::prelude::*;

use crate::error::TunTapError;

verus! {

/// Native error code: the operation was queued and completes later.
pub const ERROR_IO_PENDING: i32 = 997;

/// Native error code: the queried operation has not completed yet.
pub const ERROR_IO_INCOMPLETE: i32 = 996;

/// The largest number of bytes that one read or write call transfers.
pub const MAX_TRANSFER: u32 = 0xffff_ffff;

/// The length passed to one I/O call for a buffer of `len` bytes.
pub open spec fn clamp_len_spec(len: usize) -> u32 {
    if len as int > MAX_TRANSFER as int {
        MAX_TRANSFER
    } else {
        len as u32
    }
}

pub fn clamp_len(len: usize) -> (r: u32)
    ensures
        r == clamp_len_spec(len),
{
    if len as u64 > MAX_TRANSFER as u64 {
        MAX_TRANSFER
    } else {
        len as u32
    }
}

/// The result of a system call that reports failure by returning zero, with the
/// thread's last error code read right after it.
pub open spec fn cvt_spec(ret: i32, last_error: i32) -> Result<i32, TunTapError> {
    if ret == 0 {
        Err(TunTapError::Io { code: last_error })
    } else {
        Ok(ret)
    }
}

pub fn cvt(ret: i32, last_error: i32) -> (r: Result<i32, TunTapError>)
    ensures
        r == cvt_spec(ret, last_error),
{
    if ret == 0 {
        Err(TunTapError::Io { code: last_error })
    } else {
        Ok(ret)
    }
}

/// The result of a synchronous read or write call that reported `bytes`
/// transferred.
pub open spec fn transfer_spec(ret: i32, last_error: i32, bytes: u32) -> Result<usize, TunTapError> {
    if ret == 0 {
        Err(TunTapError::Io { code: last_error })
    } else {
        Ok(bytes as usize)
    }
}

pub fn transfer_status(ret: i32, last_error: i32, bytes: u32) -> (r: Result<usize, TunTapError>)
    ensures
        r == transfer_spec(ret, last_error, bytes),
{
    match cvt(ret, last_error) {
        Ok(_) => Ok(bytes as usize),
        Err(e) => Err(e),
    }
}

/// Whether issuing an operation let it start: a call that succeeded or that
/// queued the operation is followed by a query of its completion; any other
/// failure ends the operation with that error.
pub open spec fn issue_spec(ret: i32, last_error: i32) -> Result<(), TunTapError> {
    if ret != 0 || last_error == ERROR_IO_PENDING {
        Ok(())
    } else {
        Err(TunTapError::Io { code: last_error })
    }
}

pub fn issue_status(ret: i32, last_error: i32) -> (r: Result<(), TunTapError>)
    ensures
        r == issue_spec(ret, last_error),
{
    match cvt(ret, last_error) {
        Ok(_) => Ok(()),
        Err(e) => {
            if last_error == ERROR_IO_PENDING {
                Ok(())
            } else {
                Err(e)
            }
        },
    }
}

/// The result of querying an operation's completion: the byte count once it
/// completed, "no result yet" when a poll finds it incomplete, a logic error
/// when a wait resolves as incomplete, else the native error.
pub open spec fn completion_spec(ret: i32, last_error: i32, bytes: u32, wait: bool) -> Result<
    Option<usize>,
    TunTapError,
> {
    if ret != 0 {
        Ok(Some(bytes as usize))
    } else if last_error == ERROR_IO_INCOMPLETE {
        if wait {
            Err(TunTapError::LogicError)
        } else {
            Ok(None)
        }
    } else {
        Err(TunTapError::Io { code: last_error })
    }
}

pub fn completion_status(ret: i32, last_error: i32, bytes: u32, wait: bool) -> (r: Result<
    Option<usize>,
    TunTapError,
>)
    ensures
        r == completion_spec(ret, last_error, bytes, wait),
{
    match cvt(ret, last_error) {
        Ok(_) => Ok(Some(bytes as usize)),
        Err(e) => {
            if last_error == ERROR_IO_INCOMPLETE {
                if wait {
                    Err(TunTapError::LogicError)
                } else {
                    Ok(None)
                }
            } else {
                Err(e)
            }
        },
    }
}

/// The result of a wait-mode query: the byte count, a logic error when the
/// wait resolved as incomplete, or the native error.
pub open spec fn wait_spec(ret: i32, last_error: i32, bytes: u32) -> Result<usize, TunTapError> {
    if ret != 0 {
        Ok(bytes as usize)
    } else if last_error == ERROR_IO_INCOMPLETE {
        Err(TunTapError::LogicError)
    } else {
        Err(TunTapError::Io { code: last_error })
    }
}

pub fn wait_status(ret: i32, last_error: i32, bytes: u32) -> (r: Result<usize, TunTapError>)
    ensures
        r == wait_spec(ret, last_error, bytes),
{
    match completion_status(ret, last_error, bytes, true) {
        Ok(Some(n)) => Ok(n),
        Ok(None) => {
            proof {
                lemma_wait_never_incomplete(ret, last_error, bytes);
            }
            Err(TunTapError::LogicError)
        },
        Err(e) => Err(e),
    }
}

/// A wait-mode query never resolves as incomplete: it gives a byte count or
/// an error, and an incompleteness is never passed on as a native error.
pub proof fn lemma_wait_never_incomplete(ret: i32, last_error: i32, bytes: u32)
    ensures
        wait_spec(ret, last_error, bytes) != Err::<usize, TunTapError>(
            TunTapError::Io { code: ERROR_IO_INCOMPLETE },
        ),
        completion_spec(ret, last_error, bytes, true) != Err::<Option<usize>, TunTapError>(
            TunTapError::Io { code: ERROR_IO_INCOMPLETE },
        ),
        completion_spec(ret, last_error, bytes, true) is Ok ==> completion_spec(
            ret,
            last_error,
            bytes,
            true,
        )->Ok_0 is Some,
        completion_spec(ret, last_error, bytes, true) is Ok ==> wait_spec(ret, last_error, bytes)
            == Ok::<usize, TunTapError>(completion_spec(ret, last_error, bytes, true)->Ok_0->0),
        completion_spec(ret, last_error, bytes, true) is Err ==> wait_spec(ret, last_error, bytes)
            == Err::<usize, TunTapError>(completion_spec(ret, last_error, bytes, true)->Err_0),
{
}

/// The state of one completion record: whether an operation issued with it is
/// still in flight. A record must not be reused while it is.
#[derive(Clone, Copy, Debug, PartialEq, Eq, Structural)]
pub struct OverlappedOperation {
    pub pending: bool,
}

/// The record and result after polling a pending operation once.
pub open spec fn poll_spec(op: OverlappedOperation, ret: i32, last_error: i32, bytes: u32) -> (
    OverlappedOperation,
    Result<Option<usize>, TunTapError>,
) {
    let r = completion_spec(ret, last_error, bytes, false);
    (OverlappedOperation { pending: r == Ok::<Option<usize>, TunTapError>(None) }, r)
}

impl OverlappedOperation {
    /// A record with no operation in flight.
    pub fn new() -> (r: OverlappedOperation)
        ensures
            !r.pending,
    {
        OverlappedOperation { pending: false }
    }

    /// Records the outcome of issuing an operation on an idle record: the
    /// operation is in flight unless issuing it failed.
    pub fn start(&mut self, ret: i32, last_error: i32) -> (r: Result<(), TunTapError>)
        requires
            !old(self).pending,
        ensures
            r == issue_spec(ret, last_error),
            final(self).pending == r is Ok,
    {
        let r = issue_status(ret, last_error);
        self.pending = r.is_ok();
        r
    }

    /// Records the outcome of polling the operation in flight: it stays in
    /// flight exactly when the poll found it incomplete.
    pub fn poll(&mut self, ret: i32, last_error: i32, bytes: u32) -> (r: Result<Option<usize>, TunTapError>)
        requires
            old(self).pending,
        ensures
            (*final(self), r) == poll_spec(*old(self), ret, last_error, bytes),
    {
        let r = completion_status(ret, last_error, bytes, false);
        let still = match &r {
            Ok(None) => true,
            _ => false,
        };
        self.pending = still;
        r
    }

    /// Records the outcome of waiting for the operation in flight; the record
    /// is idle afterwards.
    pub fn wait(&mut self, ret: i32, last_error: i32, bytes: u32) -> (r: Result<usize, TunTapError>)
        requires
            old(self).pending,
        ensures
            r == wait_spec(ret, last_error, bytes),
            !final(self).pending,
    {
        self.pending = false;
        wait_status(ret, last_error, bytes)
    }
}

/// A wait-mode query reports no more bytes than one call can transfer, and no
/// more than the buffer holds when the kernel transferred at most the length it
/// was given.
pub proof fn lemma_wait_count_bounded(ret: i32, last_error: i32, bytes: u32, buf_len: usize)
    requires
        bytes <= clamp_len_spec(buf_len),
    ensures
        wait_spec(ret, last_error, bytes) is Ok ==> wait_spec(ret, last_error, bytes)->Ok_0
            <= buf_len,
        wait_spec(ret, last_error, bytes) is Ok ==> wait_spec(ret, last_error, bytes)->Ok_0
            <= MAX_TRANSFER,
{
}

/// Polling an operation that has not completed reports "no result yet" without
/// error and leaves the record as it was; so any later poll, once the data has
/// arrived, reports what it would have reported without the earlier ones.
pub proof fn lemma_poll_incomplete_idempotent(
    op: OverlappedOperation,
    bytes: u32,
    later_ret: i32,
    later_error: i32,
    later_bytes: u32,
)
    requires
        op.pending,
    ensures
        poll_spec(op, 0, ERROR_IO_INCOMPLETE, bytes) == (op, Ok::<Option<usize>, TunTapError>(None)),
        poll_spec(poll_spec(op, 0, ERROR_IO_INCOMPLETE, bytes).0, later_ret, later_error, later_bytes)
            == poll_spec(op, later_ret, later_error, later_bytes),
{
}

} // verus!
