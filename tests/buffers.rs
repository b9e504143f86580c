use whisper_rs::{native_count, take_filled, validate_fill_count, WhisperError};

#[test]
fn overflowing_count_is_refused() {
    assert_eq!(
        validate_fill_count(11, 10),
        Err(WhisperError::BufferOverflow { reported: 11, capacity: 10 })
    );
    assert_eq!(
        take_filled(vec![0i32; 10], 15),
        Err(WhisperError::BufferOverflow { reported: 15, capacity: 10 })
    );
}

#[test]
fn negative_count_is_native_failure() {
    assert_eq!(validate_fill_count(-1, 10), Err(WhisperError::NativeFailure(-1)));
    assert_eq!(take_filled(vec![0i32; 4], -1), Err(WhisperError::NativeFailure(-1)));
}

#[test]
fn valid_count_keeps_written_prefix() {
    assert_eq!(validate_fill_count(3, 10), Ok(3));
    assert_eq!(validate_fill_count(10, 10), Ok(10));
    assert_eq!(take_filled(vec![5, 6, 7, 0, 0], 3), Ok(vec![5, 6, 7]));
    assert_eq!(take_filled(vec![5, 6], 2), Ok(vec![5, 6]));
    assert_eq!(take_filled(Vec::<i32>::new(), 0), Ok(vec![]));
}

#[test]
fn tokenize_with_one_slot_never_yields_more() {
    // A well-behaved engine writes one token; a misbehaving one reports more.
    assert_eq!(take_filled(vec![50257], 1), Ok(vec![50257]));
    assert_eq!(
        take_filled(vec![50257], 8),
        Err(WhisperError::BufferOverflow { reported: 8, capacity: 1 })
    );
    assert_eq!(take_filled(vec![0], -1), Err(WhisperError::NativeFailure(-1)));
}

#[test]
fn native_count_saturates() {
    assert_eq!(native_count(0), 0);
    assert_eq!(native_count(16000), 16000);
    assert_eq!(native_count(usize::MAX), i32::MAX);
    assert_eq!(native_count(i32::MAX as usize + 1), i32::MAX);
}
