//! The typed error of the binding, and the decoding of the kernel's
//! return/errno convention into it.
//!
//! `ptrace(2)` reports failure by returning `-1` and leaving the error
//! number in the thread's `errno`.  For most requests a return value of
//! `-1` can mean nothing else; for the peek requests the fetched word is
//! the return value itself, so `-1` is also a legal datum and the caller
//! must clear `errno` before the call and consult it afterwards to tell
//! the two apart.  Both disciplines are decoded here, exactly.

use vstd::prelude::*;

verus! {

/// The error number with which a syscall-info payload carrying an
/// unrecognised discriminant is rejected: `ENOSYS`, the kernel's
/// "function not implemented".
pub const ENOSYS: i32 = 38;

/// A failed kernel call, carrying the error number the kernel left in
/// `errno`.  No further taxonomy is imposed: the caller owns the
/// decision of what to do with it.
#[derive(Clone, Copy, Debug, PartialEq, Eq, Hash, Structural)]
pub struct Errno {
    /// The raw error number.
    pub code: i32,
}

/// The decode of a call whose only interesting outcome is success:
/// `-1` means failure with `errno`, anything else is discarded.
pub open spec fn spec_unit_result(ret: i64, errno: i32) -> Result<(), Errno> {
    if ret == -1 {
        Err(Errno { code: errno })
    } else {
        Ok(())
    }
}

/// Decode the outcome of a control- or poke-style request, where the
/// kernel returns `0` (or an uninteresting positive value, which is
/// discarded) on success and `-1` with `errno` set on failure.
pub fn unit_result(ret: i64, errno: i32) -> (r: Result<(), Errno>)
    ensures
        r == spec_unit_result(ret, errno),
{
    if ret == -1 {
        Err(Errno { code: errno })
    } else {
        Ok(())
    }
}

/// The decode of a peek-style call: the word read is the return value,
/// so `-1` is an error only if the (pre-cleared) `errno` says so.
pub open spec fn spec_peek_result(ret: i64, errno: i32) -> Result<i64, Errno> {
    if ret != -1 || errno == 0 {
        Ok(ret)
    } else {
        Err(Errno { code: errno })
    }
}

/// Decode the outcome of a peek-style request.  The caller must have
/// cleared `errno` to `0` before the call, as the contract of the peek
/// builders states; a return value of `-1` with `errno` still clear is
/// then the literal word `-1`, not a failure.
pub fn peek_result(ret: i64, errno: i32) -> (r: Result<i64, Errno>)
    ensures
        r == spec_peek_result(ret, errno),
{
    if ret != -1 || errno == 0 {
        Ok(ret)
    } else {
        Err(Errno { code: errno })
    }
}

/// With the error state cleared before the call, a peek can only
/// succeed: whatever word comes back — the sentinel included — is the
/// datum read, and a failure is visible in `errno` alone.
pub proof fn lemma_peek_with_clear_errno_is_data(ret: i64)
    ensures
        spec_peek_result(ret, 0) == Ok::<i64, Errno>(ret),
{
}

/// The decode of an out-parameter call: on success the value the kernel
/// wrote into the caller's buffer is handed through unchanged.
pub open spec fn spec_data_result<T>(ret: i64, errno: i32, data: T) -> Result<T, Errno> {
    if ret == -1 {
        Err(Errno { code: errno })
    } else {
        Ok(data)
    }
}

/// Decode the outcome of an out-parameter request.  `data` is whatever
/// the kernel wrote into the buffer the caller supplied; it is
/// meaningful, and returned, exactly when the call did not fail.
pub fn data_result<T>(ret: i64, errno: i32, data: T) -> (r: Result<T, Errno>)
    ensures
        r == spec_data_result(ret, errno, data),
{
    if ret == -1 {
        Err(Errno { code: errno })
    } else {
        Ok(data)
    }
}

} // verus!
