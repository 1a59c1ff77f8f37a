//! Readers for the fields that block bodies are made of: little-endian
//! integers and length-prefixed UTF-8 text.

use vstd::prelude::*;
use vstd::slice::slice_subrange;
use vstd::slice::slice_to_vec;
use vstd::utf8::decode_utf8;
use vstd::utf8::valid_utf8;
use crate::error::SrrError;

verus! {

/// The error that `String::from_utf8` hands back with the rejected bytes.
#[verifier::external_type_specification]
#[verifier::external_body]
pub struct ExFromUtf8Error(std::string::FromUtf8Error);

/// `String::from_utf8` of the standard library. It succeeds exactly on
/// well-formed UTF-8, and the string it then gives holds the characters that
/// the bytes encode. Nothing is said of the error value.
pub assume_specification[ String::from_utf8 ](vec: Vec<u8>) -> (r: Result<
    String,
    std::string::FromUtf8Error,
>)
    ensures
        r is Ok <==> valid_utf8(vec@),
        r is Ok ==> r->Ok_0@ == decode_utf8(vec@),
;

/// The 16-bit number whose little-endian bytes stand at `at`.
pub open spec fn le16(bytes: Seq<u8>, at: int) -> int {
    bytes[at] + 256 * bytes[at + 1]
}

/// The 32-bit number whose little-endian bytes stand at `at`.
pub open spec fn le32(bytes: Seq<u8>, at: int) -> int {
    bytes[at] + 256 * bytes[at + 1] + 65536 * bytes[at + 2] + 16777216 * bytes[at + 3]
}

/// The text field that opens at `at`: a 16-bit length, then that many bytes
/// of UTF-8.
pub open spec fn text_at(bytes: Seq<u8>, at: int) -> Result<Seq<char>, SrrError> {
    if bytes.len() < at + 2 {
        Err(SrrError::TruncatedBody)
    } else if bytes.len() < at + 2 + le16(bytes, at) {
        Err(SrrError::TruncatedBody)
    } else {
        let text = bytes.subrange(at + 2, at + 2 + le16(bytes, at));
        if valid_utf8(text) {
            Ok(decode_utf8(text))
        } else {
            Err(SrrError::InvalidUtf8)
        }
    }
}

/// Reads the little-endian 16-bit number at `at`.
pub fn read_u16(buffer: &[u8], at: usize) -> (value: u16)
    requires
        at + 2 <= buffer@.len(),
    ensures
        value == le16(buffer@, at as int),
{
    let low: u16 = buffer[at] as u16;
    let high: u16 = buffer[at + 1] as u16;
    high * 256 + low
}

/// Reads the little-endian 32-bit number at `at`.
pub fn read_u32(buffer: &[u8], at: usize) -> (value: u32)
    requires
        at + 4 <= buffer@.len(),
    ensures
        value == le32(buffer@, at as int),
{
    let b0: u32 = buffer[at] as u32;
    let b1: u32 = buffer[at + 1] as u32;
    let b2: u32 = buffer[at + 2] as u32;
    let b3: u32 = buffer[at + 3] as u32;
    b3 * 16777216 + b2 * 65536 + b1 * 256 + b0
}

/// Reads the text field that opens at `at`.
pub fn read_text(buffer: &[u8], at: usize) -> (r: Result<String, SrrError>)
    ensures
        match r {
            Ok(text) => text_at(buffer@, at as int) == Ok::<Seq<char>, SrrError>(text@),
            Err(e) => text_at(buffer@, at as int) == Err::<Seq<char>, SrrError>(e),
        },
{
    let len: usize = buffer.len();
    if len < 2 || len - 2 < at {
        return Err(SrrError::TruncatedBody);
    }
    let text_len: usize = read_u16(buffer, at) as usize;
    let start: usize = at + 2;
    if len - start < text_len {
        return Err(SrrError::TruncatedBody);
    }
    let bytes = slice_to_vec(slice_subrange(buffer, start, start + text_len));
    match String::from_utf8(bytes) {
        Ok(text) => Ok(text),
        Err(_) => Err(SrrError::InvalidUtf8),
    }
}

} // verus!
