//! C strings crossing the boundary: bounded extraction of strings the engine
//! returns, their decoding into text, and owned NUL-terminated copies of
//! strings handed to the engine.
use vstd::prelude::*;
use vstd::string::StringSliceAdditionalSpecFns;
use vstd::utf8::{decode_utf8, valid_utf8};

use crate::error::WhisperError;

verus! {

/// Longest scan for the terminator of a token's text.
pub const TOKEN_TEXT_LIMIT: usize = 1024;

/// Longest scan for the terminator of a segment's text.
pub const SEGMENT_TEXT_LIMIT: usize = 65536;

/// No byte of `b` is a NUL.
pub open spec fn no_nul(b: Seq<u8>) -> bool {
    forall|i: int| 0 <= i < b.len() ==> b[i] != 0
}

/// A NUL occurs among the first `max_len` bytes of `w`.
pub open spec fn has_terminator(w: Seq<u8>, max_len: int) -> bool {
    exists|i: int| 0 <= i < max_len && i < w.len() && w[i] == 0
}

/// `t` is what precedes the first NUL of `w`, and that NUL lies within the
/// first `max_len` bytes.
pub open spec fn is_text_before_nul(w: Seq<u8>, max_len: int, t: Seq<u8>) -> bool {
    &&& t.len() < max_len
    &&& t.len() < w.len()
    &&& w[t.len() as int] == 0
    &&& t == w.take(t.len() as int)
    &&& no_nul(t)
}

/// The text of a terminated window: the bytes before its first NUL.
pub open spec fn c_text(w: Seq<u8>, max_len: int) -> Seq<u8> {
    choose|t: Seq<u8>| is_text_before_nul(w, max_len, t)
}

/// At most one text precedes the first NUL.
pub proof fn lemma_text_before_nul_unique(w: Seq<u8>, max_len: int, t1: Seq<u8>, t2: Seq<u8>)
    requires
        is_text_before_nul(w, max_len, t1),
        is_text_before_nul(w, max_len, t2),
    ensures
        t1 == t2,
{
    if t1.len() < t2.len() {
        assert(t2[t1.len() as int] == w[t1.len() as int]);
    } else if t2.len() < t1.len() {
        assert(t1[t2.len() as int] == w[t2.len() as int]);
    }
}

/// A text that precedes the first NUL within the limit is `c_text`, and the
/// window then has a terminator.
pub proof fn lemma_c_text(w: Seq<u8>, max_len: int, t: Seq<u8>)
    requires
        is_text_before_nul(w, max_len, t),
    ensures
        c_text(w, max_len) == t,
        has_terminator(w, max_len),
{
    lemma_text_before_nul_unique(w, max_len, c_text(w, max_len), t);
}

/// The bytes that a window onto memory exposes; `None` stands for a null pointer.
pub open spec fn window_bytes(window: Option<&[u8]>) -> Option<Seq<u8>> {
    match window {
        Some(w) => Some(w@),
        None => None,
    }
}

/// What extracting a C string from a window yields: its text without the
/// terminator, or why there is none.
pub open spec fn c_str_text(window: Option<Seq<u8>>, max_len: int) -> Result<Seq<u8>, WhisperError> {
    match window {
        None => Err(WhisperError::NullPointer),
        Some(w) => if has_terminator(w, max_len) {
            Ok(c_text(w, max_len))
        } else {
            Err(WhisperError::InvalidString)
        },
    }
}

/// What strict decoding of a C string from a window yields.
pub open spec fn c_str_utf8(window: Option<Seq<u8>>, max_len: int) -> Result<Seq<char>, WhisperError> {
    match c_str_text(window, max_len) {
        Ok(t) => if valid_utf8(t) {
            Ok(decode_utf8(t))
        } else {
            Err(WhisperError::InvalidUtf8)
        },
        Err(e) => Err(e),
    }
}

/// What lossy decoding of a C string from a window yields.
pub open spec fn c_str_lossy(window: Option<Seq<u8>>, max_len: int) -> Result<Seq<char>, WhisperError> {
    match c_str_text(window, max_len) {
        Ok(t) => Ok(utf8_lossy(t)),
        Err(e) => Err(e),
    }
}

/// The text that `String::from_utf8_lossy` makes of a byte sequence.
pub uninterp spec fn utf8_lossy(b: Seq<u8>) -> Seq<char>;

/// Relies on `std::str::from_utf8`: it accepts exactly the well-formed UTF-8
/// byte sequences and returns them, uncopied, as text.
#[verifier::external_body]
fn utf8_str<'a>(b: &'a [u8]) -> (r: Option<&'a str>)
    ensures
        r is Some <==> valid_utf8(b@),
        r matches Some(t) ==> t.spec_bytes() == b@,
{
    std::str::from_utf8(b).ok()
}

/// Relies on `String::from_utf8_lossy`: each invalid sequence becomes
/// U+FFFD, and well-formed input is decoded unchanged.
#[verifier::external_body]
fn utf8_lossy_string(b: &[u8]) -> (r: String)
    ensures
        r@ == utf8_lossy(b@),
        valid_utf8(b@) ==> r@ == decode_utf8(b@),
{
    String::from_utf8_lossy(b).into_owned()
}

/// Finds the terminator of a C string within the first `max_len` bytes of the
/// memory that `window` exposes (`None` standing for a null pointer), and
/// returns the string with its terminator. Nothing past the scan is read.
pub fn bounded_c_str<'a>(window: Option<&'a [u8]>, max_len: usize) -> (r: Result<&'a [u8], WhisperError>)
    ensures
        match c_str_text(window_bytes(window), max_len as int) {
            Ok(t) => r matches Ok(s) && s@ == t.push(0),
            Err(e) => r == Err::<&[u8], _>(e),
        },
        window is None ==> r == Err::<&[u8], _>(WhisperError::NullPointer),
        window matches Some(w) && !has_terminator(w@, max_len as int) ==> r == Err::<&[u8], _>(
            WhisperError::InvalidString,
        ),
        r matches Ok(s) ==> s@.len() <= max_len,
{
    match window {
        None => Err(WhisperError::NullPointer),
        Some(w) => scan_terminated(w, max_len),
    }
}

/// The bytes of the C string in `window`, without its terminator.
pub fn c_str_bytes<'a>(window: Option<&'a [u8]>, max_len: usize) -> (r: Result<&'a [u8], WhisperError>)
    ensures
        match c_str_text(window_bytes(window), max_len as int) {
            Ok(t) => r matches Ok(b) && b@ == t,
            Err(e) => r == Err::<&[u8], _>(e),
        },
{
    match bounded_c_str(window, max_len) {
        Ok(s) => {
            let b = &s[0..s.len() - 1];
            assert(b@ =~= s@.drop_last());
            Ok(b)
        },
        Err(e) => Err(e),
    }
}

/// The text of the C string in `window`, which must be valid UTF-8.
pub fn c_str_to_str<'a>(window: Option<&'a [u8]>, max_len: usize) -> (r: Result<&'a str, WhisperError>)
    ensures
        match c_str_utf8(window_bytes(window), max_len as int) {
            Ok(t) => r matches Ok(s) && s@ == t,
            Err(e) => r == Err::<&str, _>(e),
        },
{
    match c_str_bytes(window, max_len) {
        Ok(b) => match utf8_str(b) {
            Some(s) => {
                proof {
                    vstd::utf8::encode_utf8_decode_utf8(s@);
                }
                Ok(s)
            },
            None => Err(WhisperError::InvalidUtf8),
        },
        Err(e) => Err(e),
    }
}

/// The text of the C string in `window`, with every invalid UTF-8 sequence
/// replaced by U+FFFD.
pub fn c_str_to_string_lossy(window: Option<&[u8]>, max_len: usize) -> (r: Result<String, WhisperError>)
    ensures
        match c_str_lossy(window_bytes(window), max_len as int) {
            Ok(t) => r matches Ok(s) && s@ == t,
            Err(e) => r == Err::<String, _>(e),
        },
{
    match c_str_bytes(window, max_len) {
        Ok(b) => Ok(utf8_lossy_string(b)),
        Err(e) => Err(e),
    }
}

/// The terminated prefix of `w` whose NUL lies within the first `max_len` bytes.
fn scan_terminated<'a>(w: &'a [u8], max_len: usize) -> (r: Result<&'a [u8], WhisperError>)
    ensures
        r is Ok <==> has_terminator(w@, max_len as int),
        r is Err ==> r == Err::<&[u8], _>(WhisperError::InvalidString),
        r matches Ok(s) ==> s@ == c_text(w@, max_len as int).push(0) && s@.len() <= max_len,
{
    let limit: usize = if max_len < w.len() { max_len } else { w.len() };
    let mut i: usize = 0;
    while i < limit
        invariant
            i <= limit,
            limit <= w@.len(),
            limit <= max_len,
            forall|j: int| 0 <= j < i ==> w@[j] != 0,
        decreases limit - i,
    {
        if w[i] == 0 {
            let s = &w[0..i + 1];
            proof {
                let t = w@.take(i as int);
                assert(is_text_before_nul(w@, max_len as int, t));
                lemma_c_text(w@, max_len as int, t);
                assert(s@ =~= t.push(0));
            }
            return Ok(s);
        }
        i = i + 1;
    }
    assert(!has_terminator(w@, max_len as int));
    Err(WhisperError::InvalidString)
}

/// A NUL-terminated copy of a text, owned by the host, that the engine may read
/// through a pointer for as long as the copy lives.
pub struct OwnedCStr {
    bytes: Vec<u8>,
}

impl View for OwnedCStr {
    type V = Seq<u8>;

    /// The text, without its terminator.
    closed spec fn view(&self) -> Seq<u8> {
        self.bytes@.drop_last()
    }
}

impl OwnedCStr {
    /// The copy ends in its single NUL.
    #[verifier::type_invariant]
    spec fn terminated(&self) -> bool {
        &&& self.bytes@.len() >= 1
        &&& self.bytes@.last() == 0
        &&& no_nul(self.bytes@.drop_last())
    }

    /// Copies `text` and appends a terminator; a text that holds a NUL byte
    /// would be cut short by the engine and is refused.
    pub fn new(text: &str) -> (r: Result<OwnedCStr, WhisperError>)
        ensures
            no_nul(text.spec_bytes()) ==> (r matches Ok(c) && c@ == text.spec_bytes()),
            !no_nul(text.spec_bytes()) ==> r == Err::<OwnedCStr, _>(WhisperError::NullByteInString),
    {
        let b = text.as_bytes();
        let mut bytes: Vec<u8> = Vec::new();
        let mut i: usize = 0;
        while i < b.len()
            invariant
                i <= b@.len(),
                b@ == text.spec_bytes(),
                bytes@ == b@.take(i as int),
                no_nul(bytes@),
            decreases b@.len() - i,
        {
            if b[i] == 0 {
                return Err(WhisperError::NullByteInString);
            }
            bytes.push(b[i]);
            i = i + 1;
            assert(bytes@ =~= b@.take(i as int));
        }
        assert(bytes@ =~= b@);
        bytes.push(0);
        assert(bytes@.drop_last() =~= b@);
        Ok(OwnedCStr { bytes })
    }

    /// The copy with its terminator, as the engine reads it.
    pub fn as_bytes_with_nul(&self) -> (r: &[u8])
        ensures
            r@ == self@.push(0),
            no_nul(self@),
    {
        proof {
            use_type_invariant(self);
            assert(self.bytes@ =~= self.bytes@.drop_last().push(0));
        }
        self.bytes.as_slice()
    }

    /// The text, without its terminator.
    pub fn to_bytes(&self) -> (r: &[u8])
        ensures
            r@ == self@,
    {
        proof {
            use_type_invariant(self);
        }
        let n = self.bytes.len() - 1;
        let r = &self.bytes.as_slice()[0..n];
        assert(r@ =~= self.bytes@.drop_last());
        r
    }
}

} // verus!
