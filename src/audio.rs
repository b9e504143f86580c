//! The length rules of the audio conversion helpers: which buffers may be
//! converted, and how many samples the conversion then writes.
use vstd::prelude::*;

use crate::error::WhisperError;

verus! {

/// Checks the buffers of a mono integer-to-float conversion: input and output
/// hold the same number of samples, which is then the number converted.
pub fn integer_to_float_lengths(input_len: usize, output_len: usize) -> (r: Result<usize, WhisperError>)
    ensures
        input_len == output_len ==> r == Ok::<usize, WhisperError>(input_len),
        input_len != output_len ==> r == Err::<usize, WhisperError>(
            WhisperError::InputOutputLengthMismatch { input_len, output_len },
        ),
{
    if input_len != output_len {
        Err(WhisperError::InputOutputLengthMismatch { input_len, output_len })
    } else {
        Ok(input_len)
    }
}

/// Checks the buffers of a stereo-to-mono conversion. The input interleaves
/// left and right samples, so its length must be even; the output holds one
/// sample per frame. On success, the number of frames.
pub fn stereo_to_mono_lengths(input_len: usize, output_len: usize) -> (r: Result<usize, WhisperError>)
    ensures
        input_len % 2 == 1 ==> r == Err::<usize, WhisperError>(WhisperError::HalfSampleMissing(input_len)),
        input_len % 2 == 0 && output_len == input_len / 2 ==> r == Ok::<usize, WhisperError>(output_len),
        input_len % 2 == 0 && output_len != input_len / 2 ==> r == Err::<usize, WhisperError>(
            WhisperError::InputOutputLengthMismatch { input_len: input_len / 2, output_len },
        ),
{
    if input_len % 2 != 0 {
        return Err(WhisperError::HalfSampleMissing(input_len));
    }
    let frames = input_len / 2;
    if output_len != frames {
        return Err(WhisperError::InputOutputLengthMismatch { input_len: frames, output_len });
    }
    Ok(frames)
}

} // verus!
