//! Decoding of collected body bytes: UTF-8 text and JSON.
//!
//! Both decoders live in outside code; each is reached through one trusted
//! wrapper whose contract names what the outside call returns, and nothing
//! else in the crate is taken on trust.

use vstd::prelude::*;
use crate::errors::HttpError;

verus! {

/// What decoding a byte sequence as UTF-8 yields: the decoded text, or
/// nothing if the bytes are not valid UTF-8. The result depends on the bytes
/// alone.
pub uninterp spec fn utf8_decode(bytes: Seq<u8>) -> Option<Seq<char>>;

/// Relies on `String::from_utf8`: it succeeds exactly when the bytes are
/// valid UTF-8, and the decoded text is a function of the bytes alone.
#[verifier::external_body]
pub(crate) fn bytes_to_string(bytes: Vec<u8>) -> (r: Option<String>)
    ensures
        r is Some <==> utf8_decode(bytes@) is Some,
        r is Some ==> r->0@ == utf8_decode(bytes@)->0,
{
    String::from_utf8(bytes).ok()
}

/// What parsing a byte sequence as JSON yields: the parsed document, or
/// nothing if the bytes are not a well-formed JSON document. The result
/// depends on the bytes alone: the parser reads the whole input against a
/// fixed grammar with a fixed recursion limit.
pub uninterp spec fn json_decode(bytes: Seq<u8>) -> Option<serde_json::Value>;

/// `serde_json::Value`, the parsed form of a JSON document, declared so that
/// it can stand in signatures. The crate carries such a value through to the
/// caller and never looks inside it.
#[verifier::external_type_specification]
#[verifier::external_body]
pub struct ExJsonValue(serde_json::Value);

/// Relies on `serde_json::from_slice`: parsing succeeds exactly when the
/// bytes are a well-formed JSON document, and the parsed document is a
/// function of the bytes alone.
#[verifier::external_body]
pub(crate) fn parse_json(bytes: &[u8]) -> (r: Option<serde_json::Value>)
    ensures
        r is Some <==> json_decode(bytes@) is Some,
        r is Some ==> r->0 == json_decode(bytes@)->0,
{
    serde_json::from_slice::<serde_json::Value>(bytes).ok()
}

/// Decodes a whole response body as UTF-8 text; anything else is rejected
/// with `DecodeError`.
pub fn body_to_string(bytes: Vec<u8>) -> (r: Result<String, HttpError>)
    ensures
        utf8_decode(bytes@) is Some ==> r is Ok && r->Ok_0@ == utf8_decode(bytes@)->0,
        utf8_decode(bytes@) is None ==> r == Err::<String, HttpError>(HttpError::DecodeError),
{
    match bytes_to_string(bytes) {
        Some(text) => Ok(text),
        None => Err(HttpError::DecodeError),
    }
}

/// Parses a whole response body as a JSON document; malformed content is
/// rejected with `DecodeError`.
pub fn body_to_json(bytes: &[u8]) -> (r: Result<serde_json::Value, HttpError>)
    ensures
        r is Ok <==> json_decode(bytes@) is Some,
        r is Ok ==> r->Ok_0 == json_decode(bytes@)->0,
        json_decode(bytes@) is None ==> r == Err::<serde_json::Value, HttpError>(
            HttpError::DecodeError,
        ),
{
    match parse_json(bytes) {
        Some(value) => Ok(value),
        None => Err(HttpError::DecodeError),
    }
}

} // verus!
