//! Buffers that the engine fills: the count it reports is checked against the
//! capacity it was given before any element is read.
use vstd::prelude::*;

use crate::error::WhisperError;

verus! {

/// What a count reported by a native fill call means for a buffer of
/// `capacity` elements: how many elements were written, or the failure.
pub open spec fn fill_outcome(reported: i32, capacity: nat) -> Result<nat, WhisperError> {
    if reported < 0 {
        Err(WhisperError::NativeFailure(reported))
    } else if reported > capacity {
        Err(WhisperError::BufferOverflow { reported, capacity: capacity as usize })
    } else {
        Ok(reported as nat)
    }
}

/// The largest count the engine can be told, as the C `int` it takes.
pub open spec fn native_count_spec(n: usize) -> i32 {
    if n <= i32::MAX {
        n as i32
    } else {
        i32::MAX
    }
}

/// A host length as the C `int` the engine takes; a length beyond its range
/// is told as the largest `int`, so the engine is never promised more room
/// than there is.
pub fn native_count(n: usize) -> (r: i32)
    ensures
        r == native_count_spec(n),
        0 <= r,
        r <= n,
{
    if n <= i32::MAX as usize {
        n as i32
    } else {
        i32::MAX
    }
}

/// Checks the count that a native fill call reported for a buffer of
/// `capacity` elements: a negative count is the engine's failure, and a count
/// beyond the capacity is refused rather than trusted.
pub fn validate_fill_count(reported: i32, capacity: usize) -> (r: Result<usize, WhisperError>)
    ensures
        match fill_outcome(reported, capacity as nat) {
            Ok(n) => r == Ok::<usize, WhisperError>(n as usize),
            Err(e) => r == Err::<usize, WhisperError>(e),
        },
        reported > capacity ==> r == Err::<usize, WhisperError>(
            WhisperError::BufferOverflow { reported, capacity },
        ),
        r matches Ok(n) ==> n <= capacity,
{
    if reported < 0 {
        Err(WhisperError::NativeFailure(reported))
    } else if reported as usize > capacity {
        Err(WhisperError::BufferOverflow { reported, capacity })
    } else {
        Ok(reported as usize)
    }
}

/// Keeps the elements that a native call reported writing into `buffer`, and
/// drops the rest of it; fails as `validate_fill_count` does, in which case no
/// element is handed out.
pub fn take_filled<T>(buffer: Vec<T>, reported: i32) -> (r: Result<Vec<T>, WhisperError>)
    ensures
        match fill_outcome(reported, buffer@.len()) {
            Ok(n) => r matches Ok(v) && v@ == buffer@.take(n as int),
            Err(e) => r matches Err(f) && f == e,
        },
        reported > buffer@.len() ==> (r matches Err(f) && f == (WhisperError::BufferOverflow {
            reported,
            capacity: buffer@.len() as usize,
        })),
        r matches Ok(v) ==> v@.len() <= buffer@.len(),
{
    let mut buffer = buffer;
    match validate_fill_count(reported, buffer.len()) {
        Ok(n) => {
            buffer.truncate(n);
            Ok(buffer)
        },
        Err(e) => Err(e),
    }
}

} // verus!
