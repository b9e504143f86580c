//! The decisions of the segment callback trampoline: which segments an
//! invocation from native code reports, and what reaches the registered
//! closure for each of them once every field has been checked.
use vstd::prelude::*;

use crate::cstr::{c_str_lossy, c_str_to_str, c_str_to_string_lossy, c_str_utf8, window_bytes};
use crate::error::WhisperError;
use crate::session::checked_index;

verus! {

/// An owned copy of one new segment, handed to a segment callback.
#[derive(Debug, Clone)]
pub struct SegmentCallbackData {
    pub segment: i32,
    pub start_timestamp: i64,
    pub end_timestamp: i64,
    pub text: String,
}

/// How a segment's text is decoded for the callback.
#[derive(Debug, Clone, Copy, PartialEq, Eq, Structural)]
pub enum TextPolicy {
    /// Invalid UTF-8 reaches the closure as an error.
    Strict,
    /// Invalid UTF-8 sequences are replaced by U+FFFD.
    Lossy,
}

/// What the trampoline does with one segment.
#[derive(Debug, Clone)]
pub enum Delivery {
    /// Hand this owned copy to the closure.
    Deliver(SegmentCallbackData),
    /// Hand this decoding error to the closure.
    DeliverError(WhisperError),
    /// Do not call the closure; report why.
    Skip(WhisperError),
}

/// The segments that an invocation reports, as the range `start..end`: the
/// last `n_new` of the `n_segments` results, provided the invocation carries
/// its context and comes from the session that registered it.
pub open spec fn callback_range_spec(
    context_present: bool,
    session_matches: bool,
    n_segments: i32,
    n_new: i32,
) -> Option<(i32, i32)> {
    if context_present && session_matches && 0 <= n_new <= n_segments {
        Some(((n_segments - n_new) as i32, n_segments))
    } else {
        None
    }
}

/// The segments that an invocation from native code reports; `None` when
/// the invocation must be ignored.
pub fn callback_range(context_present: bool, session_matches: bool, n_segments: i32, n_new: i32) -> (r: Option<(i32, i32)>)
    ensures
        r == callback_range_spec(context_present, session_matches, n_segments, n_new),
{
    if context_present && session_matches && 0 <= n_new && n_new <= n_segments {
        Some((n_segments - n_new, n_segments))
    } else {
        None
    }
}

/// `d` hands the closure a copy of the segment with exactly this text.
pub open spec fn delivers(d: Delivery, segment: i32, t0: i64, t1: i64, text: Seq<char>) -> bool {
    match d {
        Delivery::Deliver(data) => {
            &&& data.segment == segment
            &&& data.start_timestamp == t0
            &&& data.end_timestamp == t1
            &&& data.text@ == text
        },
        _ => false,
    }
}

/// What the trampoline does with segment `segment` of `n_segments`, whose
/// timestamps are `t0` and `t1` and whose text the engine exposes through
/// `text` (`None` for a null pointer), scanned for at most `max_len` bytes.
/// An index out of range, a null text or an unterminated one is skipped; under
/// the strict policy, invalid UTF-8 reaches the closure as an error.
pub fn segment_delivery(
    policy: TextPolicy,
    segment: i32,
    n_segments: i32,
    t0: i64,
    t1: i64,
    text: Option<&[u8]>,
    max_len: usize,
) -> (r: Delivery)
    ensures
        !(0 <= segment < n_segments) ==> r == Delivery::Skip(
            WhisperError::IndexOutOfBounds { index: segment, count: n_segments },
        ),
        0 <= segment < n_segments && policy == TextPolicy::Strict ==> match c_str_utf8(
            window_bytes(text),
            max_len as int,
        ) {
            Ok(t) => delivers(r, segment, t0, t1, t),
            Err(WhisperError::InvalidUtf8) => r == Delivery::DeliverError(WhisperError::InvalidUtf8),
            Err(e) => r == Delivery::Skip(e),
        },
        0 <= segment < n_segments && policy == TextPolicy::Lossy ==> match c_str_lossy(
            window_bytes(text),
            max_len as int,
        ) {
            Ok(t) => delivers(r, segment, t0, t1, t),
            Err(e) => r == Delivery::Skip(e),
        },
{
    if let Err(e) = checked_index(segment, n_segments) {
        return Delivery::Skip(e);
    }
    match policy {
        TextPolicy::Strict => match c_str_to_str(text, max_len) {
            Ok(s) => Delivery::Deliver(
                SegmentCallbackData {
                    segment,
                    start_timestamp: t0,
                    end_timestamp: t1,
                    text: s.to_owned(),
                },
            ),
            Err(WhisperError::InvalidUtf8) => Delivery::DeliverError(WhisperError::InvalidUtf8),
            Err(e) => Delivery::Skip(e),
        },
        TextPolicy::Lossy => match c_str_to_string_lossy(text, max_len) {
            Ok(s) => Delivery::Deliver(
                SegmentCallbackData { segment, start_timestamp: t0, end_timestamp: t1, text: s },
            ),
            Err(e) => Delivery::Skip(e),
        },
    }
}

} // verus!
