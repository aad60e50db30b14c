//! The compact form of a token: three base64url segments, header, payload and
//! signature, with a dot between them.

use vstd::prelude::*;
use crate::error::Error;
use crate::error::Failure;
use crate::json::json_parsing;
use crate::json::Json;
use crate::json::JsonValue;
use crate::text::after_last;
use crate::text::position;

verus! {

/// The second of the pieces into which its dots cut a token: what stands
/// between the first dot and the next one, or the end.  A token without a dot
/// has none.
pub open spec fn payload_segment(token: Seq<char>) -> Option<Seq<char>> {
    let first = position(token, '.', 0);
    if first < token.len() {
        Some(token.subrange(first + 1, position(token, '.', first + 1)))
    } else {
        None
    }
}

/// The segment that a signature covers as the payload: what stands between
/// the last two dots.  A token with fewer than two dots has none.
pub open spec fn signed_segment(token: Seq<char>) -> Option<Seq<char>> {
    let signature = after_last(token, '.');
    if signature > 0 {
        let message = token.take(signature - 1);
        let payload = after_last(message, '.');
        if payload > 0 {
            Some(message.skip(payload))
        } else {
            None
        }
    } else {
        None
    }
}

/// `base64::DecodeError`, what the base64 engine reports.
#[verifier::external_type_specification]
#[verifier::external_body]
pub struct ExDecodeError(base64::DecodeError);

/// The bytes that `URL_SAFE_NO_PAD` decodes a text to, where it is base64url
/// without padding.
pub uninterp spec fn base64url_decoding(text: Seq<char>) -> Option<Seq<u8>>;

/// Calls `Engine::decode` of the base64 crate on its `URL_SAFE_NO_PAD`
/// engine.  The engine reads the text and nothing else, so the bytes it
/// returns are named by [`base64url_decoding`], which is `None` exactly where
/// the engine reports an error.
#[verifier::external_body]
pub(crate) fn decode_base64url(text: &str) -> (r: Result<Vec<u8>, base64::DecodeError>)
    ensures
        match r {
            Ok(bytes) => base64url_decoding(text@) == Some(bytes@),
            Err(_) => base64url_decoding(text@) is None,
        },
{
    base64::Engine::decode(&base64::engine::general_purpose::URL_SAFE_NO_PAD, text)
}

/// The JSON value that a segment carries.
pub open spec fn segment_json(segment: Seq<char>) -> Option<JsonValue> {
    match base64url_decoding(segment) {
        Some(bytes) => json_parsing(bytes),
        None => None,
    }
}

/// The JSON value of the payload that a token's signature covers.
pub open spec fn signed_json(token: Seq<char>) -> Option<JsonValue> {
    match signed_segment(token) {
        Some(segment) => segment_json(segment),
        None => None,
    }
}

/// What reading the payload of a token gives, before anything is verified:
/// its JSON value, or the first thing that is wrong with it.
pub open spec fn payload_reading(token: Seq<char>) -> Result<JsonValue, Failure> {
    match payload_segment(token) {
        None => Err(Failure::InvalidToken),
        Some(segment) => match base64url_decoding(segment) {
            None => Err(Failure::DecodeError),
            Some(bytes) => match json_parsing(bytes) {
                None => Err(Failure::InvalidJson),
                Some(json) => Ok(json),
            },
        },
    }
}

/// Where a token has exactly two dots, the payload that its signature covers
/// is its second segment.
pub proof fn segments_agree(token: Seq<char>, first: int, second: int)
    requires
        0 <= first < second < token.len(),
        token[first] == '.',
        token[second] == '.',
        forall|i: int| 0 <= i < token.len() && token[i] == '.' ==> i == first || i == second,
    ensures
        payload_segment(token) == Some(token.subrange(first + 1, second)),
        signed_segment(token) == payload_segment(token),
{
    crate::text::position_is_first(token, '.', 0);
    crate::text::position_is_first(token, '.', first + 1);
    crate::text::last_piece_is_last(token, '.');
    let signature = after_last(token, '.');
    assert(signature == second + 1) by {
        crate::text::after_last_finds(token, '.', second);
    }
    let message = token.take(signature - 1);
    crate::text::last_piece_is_last(message, '.');
    assert(message[first] == '.');
    assert(after_last(message, '.') == first + 1) by {
        crate::text::after_last_finds(message, '.', first);
    }
    assert(message.skip(first + 1) =~= token.subrange(first + 1, second));
}

/// Cuts the second segment out of a token.
pub fn payload_of(token: &str) -> (r: Option<String>)
    ensures
        match r {
            Some(segment) => payload_segment(token@) == Some(segment@),
            None => payload_segment(token@) is None,
        },
{
    let chars = crate::text::chars_of(token);
    let first = crate::text::find(&chars, '.', 0);
    if first < chars.len() {
        let next = crate::text::find(&chars, '.', first + 1);
        proof {
            crate::text::position_is_first(token@, '.', first + 1);
        }
        Some(crate::text::slice(token, first + 1, next))
    } else {
        None
    }
}

/// Reads the payload of a token as JSON.  Nothing is verified: what comes
/// back says what the token claims, not what is true.
pub fn read_payload(token: &str) -> (r: Result<Json, Error>)
    ensures
        match r {
            Ok(json) => payload_reading(token@) == Ok::<JsonValue, Failure>(json@),
            Err(e) => payload_reading(token@) == Err::<JsonValue, Failure>(e@),
        },
{
    match payload_of(token) {
        None => Err(Error::InvalidToken),
        Some(segment) => match decode_base64url(segment.as_str()) {
            Err(e) => Err(Error::DecodeError(e)),
            Ok(bytes) => match crate::json::parse(bytes.as_slice()) {
                Err(message) => Err(Error::InvalidJson(message)),
                Ok(json) => Ok(json),
            },
        },
    }
}

} // verus!
