//! A verified boundary layer for a native speech-recognition engine: the
//! checks that turn borrowed C strings, native-filled buffers and callback
//! payloads into owned, validated values, and the owned storage that backs
//! every pointer handed to the engine.
pub mod audio;
pub mod buffer;
pub mod callback;
pub mod cstr;
pub mod error;
pub mod params;
pub mod session;

pub use audio::{integer_to_float_lengths, stereo_to_mono_lengths};
pub use buffer::{native_count, take_filled, validate_fill_count};
pub use callback::{callback_range, segment_delivery, Delivery, SegmentCallbackData, TextPolicy};
pub use cstr::{
    bounded_c_str, c_str_bytes, c_str_to_str, c_str_to_string_lossy, OwnedCStr, SEGMENT_TEXT_LIMIT,
    TOKEN_TEXT_LIMIT,
};
pub use error::WhisperError;
pub use params::{FullParams, SamplingStrategy};
pub use session::{checked_index, native_status};
