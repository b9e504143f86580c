use vstd::prelude::*;

verus! {

/// Every failure that the boundary layer reports.
#[derive(Debug, Clone, Copy, PartialEq, Eq, Structural)]
pub enum WhisperError {
    /// A pointer that had to be non-null (a text, a handle) was null.
    NullPointer,
    /// No terminator was found within the bounded scan of a C string.
    InvalidString,
    /// The bytes of a string were not valid UTF-8 where strict decoding was asked for.
    InvalidUtf8,
    /// A text handed to the engine holds a NUL byte, so it cannot become a C string.
    NullByteInString,
    /// A native call reported more written elements than the buffer it was given can hold.
    BufferOverflow { reported: i32, capacity: usize },
    /// Input and output buffers of an audio conversion do not have matching lengths.
    InputOutputLengthMismatch { input_len: usize, output_len: usize },
    /// Interleaved stereo audio of odd length: the last frame lacks a sample.
    HalfSampleMissing(usize),
    /// An index into the current results is not below their count.
    IndexOutOfBounds { index: i32, count: i32 },
    /// A native call reported failure with this status.
    NativeFailure(i32),
}

} // verus!
