use whisper_rs::{
    callback_range, checked_index, native_status, segment_delivery, Delivery, TextPolicy,
    WhisperError, SEGMENT_TEXT_LIMIT,
};

#[test]
fn range_covers_new_segments() {
    assert_eq!(callback_range(true, true, 5, 2), Some((3, 5)));
    assert_eq!(callback_range(true, true, 5, 5), Some((0, 5)));
    assert_eq!(callback_range(true, true, 0, 0), Some((0, 0)));
}

#[test]
fn range_rejects_bad_invocations() {
    assert_eq!(callback_range(false, true, 5, 2), None);
    assert_eq!(callback_range(true, false, 5, 2), None);
    assert_eq!(callback_range(true, true, 5, 6), None);
    assert_eq!(callback_range(true, true, 5, -1), None);
}

#[test]
fn strict_delivery_of_valid_text() {
    let text = b" Hello world.\0";
    match segment_delivery(TextPolicy::Strict, 1, 3, 100, 250, Some(&text[..]), SEGMENT_TEXT_LIMIT) {
        Delivery::Deliver(data) => {
            assert_eq!(data.segment, 1);
            assert_eq!(data.start_timestamp, 100);
            assert_eq!(data.end_timestamp, 250);
            assert_eq!(data.text, " Hello world.");
        }
        other => panic!("unexpected {:?}", other),
    }
}

#[test]
fn strict_delivery_of_invalid_utf8_hands_error() {
    let text = [0xc3u8, 0x28, 0];
    assert!(matches!(
        segment_delivery(TextPolicy::Strict, 0, 1, 0, 10, Some(&text[..]), 64),
        Delivery::DeliverError(WhisperError::InvalidUtf8)
    ));
}

#[test]
fn lossy_delivery_replaces_invalid_utf8() {
    let text = [b'o', b'k', 0xff, 0];
    match segment_delivery(TextPolicy::Lossy, 0, 1, 0, 10, Some(&text[..]), 64) {
        Delivery::Deliver(data) => assert_eq!(data.text, "ok\u{fffd}"),
        other => panic!("unexpected {:?}", other),
    }
}

#[test]
fn invalid_fields_are_skipped() {
    assert!(matches!(
        segment_delivery(TextPolicy::Lossy, 0, 1, 0, 10, None, 64),
        Delivery::Skip(WhisperError::NullPointer)
    ));
    assert!(matches!(
        segment_delivery(TextPolicy::Strict, 0, 1, 0, 10, Some(&b"abc"[..]), 64),
        Delivery::Skip(WhisperError::InvalidString)
    ));
    assert!(matches!(
        segment_delivery(TextPolicy::Strict, 3, 3, 0, 10, Some(&b"a\0"[..]), 64),
        Delivery::Skip(WhisperError::IndexOutOfBounds { index: 3, count: 3 })
    ));
    assert!(matches!(
        segment_delivery(TextPolicy::Lossy, -1, 3, 0, 10, Some(&b"a\0"[..]), 64),
        Delivery::Skip(WhisperError::IndexOutOfBounds { index: -1, count: 3 })
    ));
}

#[test]
fn indexes_are_checked_against_current_count() {
    assert_eq!(checked_index(0, 1), Ok(0));
    assert_eq!(checked_index(4, 5), Ok(4));
    assert_eq!(checked_index(0, 0), Err(WhisperError::IndexOutOfBounds { index: 0, count: 0 }));
    assert_eq!(checked_index(-2, 5), Err(WhisperError::IndexOutOfBounds { index: -2, count: 5 }));
}

#[test]
fn native_status_maps_to_result() {
    assert_eq!(native_status(0), Ok(()));
    assert_eq!(native_status(-1), Err(WhisperError::NativeFailure(-1)));
    assert_eq!(native_status(7), Err(WhisperError::NativeFailure(7)));
}
