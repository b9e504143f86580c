//! Rules of the session's result views: an index is checked against the
//! count the engine reports at the moment of access, and a native status is
//! turned into a result.
use vstd::prelude::*;

use crate::error::WhisperError;

verus! {

/// Checks `index` against the current number `count` of results (segments of
/// a session, or tokens of a segment). A view calls this on every access with
/// a freshly read count, since a later decode call may have shrunk it.
pub fn checked_index(index: i32, count: i32) -> (r: Result<i32, WhisperError>)
    ensures
        0 <= index < count ==> r == Ok::<i32, WhisperError>(index),
        !(0 <= index < count) ==> r == Err::<i32, WhisperError>(
            WhisperError::IndexOutOfBounds { index, count },
        ),
{
    if 0 <= index && index < count {
        Ok(index)
    } else {
        Err(WhisperError::IndexOutOfBounds { index, count })
    }
}

/// The result of a native call that reports its outcome as a status: zero
/// is success, anything else the engine's failure.
pub fn native_status(status: i32) -> (r: Result<(), WhisperError>)
    ensures
        status == 0 ==> r == Ok::<(), WhisperError>(()),
        status != 0 ==> r == Err::<(), WhisperError>(WhisperError::NativeFailure(status)),
{
    if status == 0 {
        Ok(())
    } else {
        Err(WhisperError::NativeFailure(status))
    }
}

} // verus!
