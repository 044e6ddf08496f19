//! Decoding of captured output streams as UTF-8 text.

use crate::text::{failure, success, TextResult};
use vstd::prelude::*;
use vstd::utf8::{decode_utf8, valid_utf8};

verus! {

/// The standard library's description of why `bytes` is not UTF-8: the text
/// that a `FromUtf8Error` for these bytes displays. It is a function of the
/// bytes alone; its wording is left to the standard library.
pub uninterp spec fn utf8_error_text(bytes: Seq<u8>) -> Seq<char>;

/// What decoding a captured stream yields: its text where the bytes are
/// well-formed UTF-8, and otherwise the description of what is wrong with
/// them.
pub open spec fn decoding(bytes: Seq<u8>) -> TextResult {
    if valid_utf8(bytes) {
        success(decode_utf8(bytes))
    } else {
        failure(utf8_error_text(bytes))
    }
}

/// Decodes a captured stream with `String::from_utf8`.
///
/// Trusted: the body is not verified. The contract claims that the call
/// succeeds exactly on well-formed UTF-8, that the text it then returns is the
/// decoding of the bytes, and that on any other input the error it returns
/// displays as [`utf8_error_text`] of the bytes.
#[verifier::external_body]
pub(crate) fn decode_text(bytes: Vec<u8>) -> (decoded: Result<String, String>)
    ensures
        decoded matches Ok(text) ==> valid_utf8(bytes@) && text@ == decode_utf8(bytes@),
        decoded matches Err(reason) ==> !valid_utf8(bytes@) && reason@ == utf8_error_text(bytes@),
{
    match String::from_utf8(bytes) {
        Ok(text) => Ok(text),
        Err(error) => Err(format!("{}", error)),
    }
}

} // verus!
