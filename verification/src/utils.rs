//! String helpers: UTF-8 decoding, C-style terminators.
use vstd::prelude::*;
use vstd::utf8::*;
use crate::errors::ReaperError;

verus! {

/// `String::from_utf8`: the string the bytes encode, or `None` where they
/// are not valid UTF-8.
#[verifier::external_body]
pub(crate) fn string_from_utf8(bytes: Vec<u8>) -> (r: Option<String>)
    ensures
        r is Some <==> valid_utf8(bytes@),
        r matches Some(s) ==> s@ == decode_utf8(bytes@),
{
    String::from_utf8(bytes).ok()
}

/// The text with a `\0` at its end: as it is where it ends with one,
/// else with one appended.
pub open spec fn with_null_chars(s: Seq<char>) -> Seq<char> {
    if s.len() > 0 && s.last() == '\0' {
        s
    } else {
        s.push('\0')
    }
}

/// Returns self as a null-terminated String. Implemented only for [String].
pub trait WithNull: Clone {
    /// If not `\0` at the end, it will be added.
    fn with_null(self) -> String;
}

impl WithNull for String {
    fn with_null(self) -> (r: String)
        ensures
            r@ == with_null_chars(self@),
    {
        let n = self.as_str().unicode_len();
        if n > 0 && self.as_str().get_char(n - 1) == '\0' {
            return self;
        }
        let mut s = self;
        s.append("\0");
        proof {
            reveal_strlit("\0");
        }
        assert(s@ =~= with_null_chars(self@));
        s
    }
}

/// The bytes of C characters.
pub open spec fn c_chars_bytes(buf: Seq<i8>) -> Seq<u8> {
    buf.map_values(|c: i8| c as u8)
}

/// `i` is the first place of a `0` in `buf`.
pub open spec fn first_nul_at(buf: Seq<i8>, i: int) -> bool {
    &&& 0 <= i < buf.len()
    &&& buf[i] == 0
    &&& forall|j: int| 0 <= j < i ==> buf[j] != 0
}

/// `buf` holds a `0`.
pub open spec fn has_nul(buf: Seq<i8>) -> bool {
    exists|i: int| 0 <= i < buf.len() && buf[i] == 0
}

/// Convert an in-place C output buffer to Rust String with basic
/// truncation/encoding checks.
pub fn string_from_buf(buf: &[i8]) -> (r: Result<String, ReaperError>)
    ensures
        buf@.len() < 2 ==> r == Err::<String, ReaperError>(
            ReaperError::InvalidObject("buffer size must be at least 2"),
        ),
        buf@.len() >= 2 && !has_nul(buf@) ==> r == Err::<String, ReaperError>(
            ReaperError::InvalidObject("Can not get value string terminator"),
        ),
        forall|i: int|
            buf@.len() >= 2 && #[trigger] first_nul_at(buf@, i) ==> {
                let text = c_chars_bytes(buf@.subrange(0, i));
                if i == buf@.len() - 1 {
                    r == Err::<String, ReaperError>(
                        ReaperError::UnsuccessfulOperation("Buffer is too small for value"),
                    )
                } else if valid_utf8(text) {
                    r matches Ok(s) && s@ == decode_utf8(text)
                } else {
                    r == Err::<String, ReaperError>(
                        ReaperError::InvalidObject("Can not decode value as UTF-8"),
                    )
                }
            },
{
    if buf.len() < 2 {
        return Err(ReaperError::InvalidObject("buffer size must be at least 2"));
    }
    let mut pos: usize = 0;
    while pos < buf.len() && buf[pos] != 0
        invariant
            pos <= buf@.len(),
            forall|j: int| 0 <= j < pos ==> buf@[j] != 0,
        decreases buf@.len() - pos,
    {
        pos = pos + 1;
    }
    if pos == buf.len() {
        return Err(ReaperError::InvalidObject("Can not get value string terminator"));
    }
    assert(first_nul_at(buf@, pos as int));
    assert forall|i: int| #[trigger] first_nul_at(buf@, i) implies i == pos by {
        if i < pos {
            assert(buf@[i] != 0);
        } else if i > pos {
            assert(buf@[pos as int] != 0);
        }
    }
    if pos == buf.len() - 1 {
        return Err(ReaperError::UnsuccessfulOperation("Buffer is too small for value"));
    }
    let mut bytes: Vec<u8> = Vec::new();
    let mut k: usize = 0;
    while k < pos
        invariant
            k <= pos < buf@.len(),
            bytes@ == c_chars_bytes(buf@.subrange(0, k as int)),
        decreases pos - k,
    {
        bytes.push(buf[k] as u8);
        k = k + 1;
        assert(bytes@ =~= c_chars_bytes(buf@.subrange(0, k as int)));
    }
    match string_from_utf8(bytes) {
        Some(s) => Ok(s),
        None => Err(ReaperError::InvalidObject("Can not decode value as UTF-8")),
    }
}

/// What reading a project's info string gives: `buf` is the project's info
/// buffer, as long as its set size, and `filled` tells whether REAPER wrote
/// the value into it. A buffer shorter than 2 is refused first; a value
/// that fills the whole buffer is too long for it.
pub fn project_info_string(filled: bool, buf: &[i8]) -> (r: Result<String, ReaperError>)
    ensures
        buf@.len() < 2 ==> r == Err::<String, ReaperError>(
            ReaperError::InvalidObject("Project string buffer size must be at least 2."),
        ),
        buf@.len() >= 2 && !filled ==> r == Err::<String, ReaperError>(
            ReaperError::InvalidObject("Can not get Project info."),
        ),
        buf@.len() >= 2 && filled && !has_nul(buf@) ==> r == Err::<String, ReaperError>(
            ReaperError::InvalidObject("Can not get value string terminator"),
        ),
        forall|i: int|
            buf@.len() >= 2 && filled && #[trigger] first_nul_at(buf@, i) ==> {
                let text = c_chars_bytes(buf@.subrange(0, i));
                if i == buf@.len() - 1 {
                    r == Err::<String, ReaperError>(
                        ReaperError::InvalidObject(
                            "Project info string is too long for buffer. Increase it with set_string_param_size.",
                        ),
                    )
                } else if valid_utf8(text) {
                    r matches Ok(s) && s@ == decode_utf8(text)
                } else {
                    r == Err::<String, ReaperError>(
                        ReaperError::InvalidObject("Can not decode value as UTF-8"),
                    )
                }
            },
{
    if buf.len() < 2 {
        return Err(ReaperError::InvalidObject("Project string buffer size must be at least 2."));
    }
    if !filled {
        return Err(ReaperError::InvalidObject("Can not get Project info."));
    }
    match string_from_buf(buf) {
        Ok(s) => Ok(s),
        Err(ReaperError::UnsuccessfulOperation(_)) => Err(
            ReaperError::InvalidObject(
                "Project info string is too long for buffer. Increase it with set_string_param_size.",
            ),
        ),
        Err(e) => Err(e),
    }
}

} // verus!
