//! Binary fields: a byte string travels as the JSON string of its base64
//! text, in the standard alphabet and with padding.
//!
//! The text is made and read by the `base64` crate. What it makes and reads
//! is named here, not spelled out; the last two functions of this module are
//! the only places where the crate is called. Their contracts are believed,
//! not proved.

use crate::error::{EncodeError, Flaw};
use crate::json::{as_str, json_of, string_value, Json};
use vstd::prelude::*;

verus! {

/// The longest text, in bytes, that is made or read: no buffer is longer.
pub const MAX_TEXT_LEN: usize = usize::MAX / 2;

/// The text that `base64::encode` gives for the bytes.
pub uninterp spec fn base64_text(bytes: Seq<u8>) -> Seq<char>;

/// The bytes that `base64::decode` gives for the text, `None` where it
/// reports an error.
pub uninterp spec fn base64_bytes(text: Seq<char>) -> Option<Seq<u8>>;

/// The length of the padded base64 text of `n` bytes.
pub open spec fn base64_len(n: nat) -> nat {
    4 * ((n + 2) / 3)
}

/// Whether the text of the bytes is short enough to be made.
pub open spec fn bytes_fit(bytes: Seq<u8>) -> bool {
    base64_len(bytes.len()) <= MAX_TEXT_LEN
}

/// Whether the text is short enough to be read.
pub open spec fn text_fits(text: Seq<char>) -> bool {
    vstd::utf8::encode_utf8(text).len() <= MAX_TEXT_LEN
}

/// The bytes that a text stands for, where it stands for any.
pub open spec fn text_bytes(text: Seq<char>) -> Option<Seq<u8>> {
    if text_fits(text) {
        base64_bytes(text)
    } else {
        None
    }
}

/// Whether reading the text of the bytes gives the bytes back.
pub open spec fn restorable(bytes: Seq<u8>) -> bool {
    text_bytes(base64_text(bytes)) == Some(bytes)
}

/// The JSON value that carries the bytes.
pub open spec fn binary_json(bytes: Seq<u8>) -> Json {
    Json::Str(base64_text(bytes))
}

/// The bytes that a JSON value carries, or what is wrong with it.
pub open spec fn json_binary(j: Json) -> Result<Seq<u8>, Flaw> {
    match j {
        Json::Str(text) => match text_bytes(text) {
            Some(bytes) => Ok(bytes),
            None => Err(Flaw::Base64),
        },
        _ => Err(Flaw::Shape),
    }
}

/// Whether `n` bytes have a text that is short enough to be made.
fn fits(n: usize) -> (b: bool)
    ensures
        b == (base64_len(n as nat) <= MAX_TEXT_LEN),
{
    let groups: usize = if n % 3 == 0 {
        n / 3
    } else {
        n / 3 + 1
    };
    groups <= MAX_TEXT_LEN / 4
}

/// Writes a byte string as the JSON string of its base64 text.
///
/// Fails only on bytes whose text would be too long to hold. What it
/// returns is read back by [`deserialize`] as the same bytes.
pub fn serialize(v: &Vec<u8>) -> (r: Result<serde_json::Value, EncodeError>)
    ensures
        match r {
            Ok(j) => bytes_fit(v@) && json_of(j) == binary_json(v@) && restorable(v@)
                && json_binary(json_of(j)) == Ok::<Seq<u8>, Flaw>(v@),
            Err(e) => !bytes_fit(v@) && e == EncodeError::TooLong,
        },
{
    if !fits(v.len()) {
        return Err(EncodeError::TooLong);
    }
    let text = encode(v.as_slice());
    Ok(string_value(text))
}

/// Reads a byte string from the JSON string of its base64 text.
///
/// Any value but a string is a flaw of shape; a string that is no base64
/// text, or is too long to be one, is a flaw of base64.
pub fn deserialize(v: &serde_json::Value) -> (r: Result<Vec<u8>, Flaw>)
    ensures
        match r {
            Ok(bytes) => json_binary(json_of(*v)) == Ok::<Seq<u8>, Flaw>(bytes@),
            Err(e) => json_binary(json_of(*v)) == Err::<Seq<u8>, Flaw>(e),
        },
{
    match as_str(v) {
        None => Err(Flaw::Shape),
        Some(text) => {
            if byte_len(text) > MAX_TEXT_LEN {
                return Err(Flaw::Base64);
            }
            match decode(text) {
                Some(bytes) => Ok(bytes),
                None => Err(Flaw::Base64),
            }
        },
    }
}

/// Calls `str::len`. Believed: it returns the length in bytes of the text's
/// UTF-8 form, which is how the text is held.
#[verifier::external_body]
fn byte_len(text: &str) -> (n: usize)
    ensures
        n == vstd::utf8::encode_utf8(text@).len(),
{
    text.len()
}

/// Calls `base64::encode`. It panics where the length of the text overflows,
/// which `requires` leaves out. Believed: the text depends on the bytes
/// alone, which [`base64_text`] names; it is as many bytes long as padded
/// base64 is; and `base64::decode` reads it back as the same bytes.
#[verifier::external_body]
fn encode(bytes: &[u8]) -> (text: String)
    requires
        bytes_fit(bytes@),
    ensures
        text@ == base64_text(bytes@),
        vstd::utf8::encode_utf8(text@).len() == base64_len(bytes@.len()),
        base64_bytes(text@) == Some(bytes@),
{
    ::base64::encode(bytes)
}

/// Calls `base64::decode` and keeps the bytes, or `None` for its error. It
/// panics where the length of what it would read overflows, which `requires`
/// leaves out. Believed: what it returns depends on the text alone, which
/// [`base64_bytes`] names.
#[verifier::external_body]
fn decode(text: &str) -> (r: Option<Vec<u8>>)
    requires
        text_fits(text@),
    ensures
        match r {
            Some(bytes) => base64_bytes(text@) == Some(bytes@),
            None => base64_bytes(text@) is None,
        },
{
    ::base64::decode(text).ok()
}

} // verus!
