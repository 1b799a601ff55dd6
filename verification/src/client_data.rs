//! The WebAuthn envelope: `clientDataJSON` and the challenge inside it.
//!
//! The authenticator signs a JSON document whose `"challenge"` member is
//! the base64url form, without padding, of the challenge bytes. Only
//! that member is read.

use vstd::prelude::*;
use vstd::utf8::{decode_utf8, encode_utf8, valid_utf8};
use crate::error::LazorKitError;

verus! {

/// What a JSON text holds under a key of its top-level object: `None`
/// where the text is not valid JSON, `Some(None)` where it is but holds
/// no string under the key, else the string.
pub uninterp spec fn json_string_member(text: Seq<char>, key: Seq<char>) -> Option<
    Option<Seq<char>>,
>;

/// The bytes that a text decodes to as unpadded base64 over the URL-safe
/// alphabet, or `None` where it is not such a text.
pub uninterp spec fn base64url_decode(text: Seq<u8>) -> Option<Seq<u8>>;

/// Calls `core::str::from_utf8`. Trusted: it succeeds exactly on valid
/// UTF-8, and the string it returns is the decoding of the bytes.
#[verifier::external_body]
fn utf8_text(bytes: &[u8]) -> (r: Option<&str>)
    ensures
        r is Some <==> valid_utf8(bytes@),
        r matches Some(s) ==> s@ == decode_utf8(bytes@),
{
    match core::str::from_utf8(bytes) {
        Ok(s) => Some(s),
        Err(_) => None,
    }
}

/// Calls `serde_json::from_str` for a `serde_json::Value`, then indexes
/// the value by `key` and takes the result with `Value::as_str`. Trusted:
/// the outcome depends on the two texts alone. The outer `None` stands
/// for a parse error, the inner for a value that is no object, has no
/// such member, or holds something other than a string there.
#[verifier::external_body]
fn json_member(text: &str, key: &str) -> (r: Option<Option<String>>)
    ensures
        match r {
            None => json_string_member(text@, key@) is None,
            Some(None) => json_string_member(text@, key@) == Some(None::<Seq<char>>),
            Some(Some(s)) => json_string_member(text@, key@) == Some(Some(s@)),
        },
{
    match serde_json::from_str::<serde_json::Value>(text) {
        Err(_) => None,
        Ok(value) => match value[key].as_str() {
            None => Some(None),
            Some(s) => Some(Some(s.to_string())),
        },
    }
}

/// Calls `Engine::decode` on `base64::engine::general_purpose::URL_SAFE_NO_PAD`.
/// Trusted: the outcome depends on the text alone; `None` stands for
/// any decoding error.
#[verifier::external_body]
fn decode_base64url(text: &[u8]) -> (r: Option<Vec<u8>>)
    ensures
        match r {
            None => base64url_decode(text@) is None,
            Some(bytes) => base64url_decode(text@) == Some(bytes@),
        },
{
    match base64::Engine::decode(&base64::engine::general_purpose::URL_SAFE_NO_PAD, text) {
        Ok(bytes) => Some(bytes),
        Err(_) => None,
    }
}

/// The challenge bytes that `clientDataJSON` carries, or the reason it
/// carries none.
pub open spec fn challenge_bytes_spec(client_data_json: Seq<u8>) -> Result<Seq<u8>, LazorKitError> {
    if !valid_utf8(client_data_json) {
        Err(LazorKitError::ClientDataInvalidUtf8)
    } else {
        match json_string_member(decode_utf8(client_data_json), "challenge"@) {
            None => Err(LazorKitError::ClientDataJsonParseError),
            Some(None) => Err(LazorKitError::ChallengeMissing),
            Some(Some(text)) => challenge_from_text_spec(encode_utf8(text)),
        }
    }
}

/// The challenge bytes that the text of the `"challenge"` member stands
/// for: the text as it stands, decoded as base64url without padding.
pub open spec fn challenge_from_text_spec(text: Seq<u8>) -> Result<Seq<u8>, LazorKitError> {
    match base64url_decode(text) {
        None => Err(LazorKitError::ChallengeBase64DecodeError),
        Some(bytes) => Ok(bytes),
    }
}

/// Decodes the text of the `"challenge"` member.
pub fn challenge_from_text(text: &[u8]) -> (r: Result<Vec<u8>, LazorKitError>)
    ensures
        match r {
            Ok(bytes) => challenge_from_text_spec(text@) == Ok::<Seq<u8>, LazorKitError>(bytes@),
            Err(e) => challenge_from_text_spec(text@) == Err::<Seq<u8>, LazorKitError>(e),
        },
{
    match decode_base64url(text) {
        None => Err(LazorKitError::ChallengeBase64DecodeError),
        Some(bytes) => Ok(bytes),
    }
}

/// Extracts the challenge bytes from the raw `clientDataJSON`.
pub fn parse_challenge(client_data_json_raw: &[u8]) -> (r: Result<Vec<u8>, LazorKitError>)
    ensures
        match r {
            Ok(bytes) => challenge_bytes_spec(client_data_json_raw@) == Ok::<
                Seq<u8>,
                LazorKitError,
            >(bytes@),
            Err(e) => challenge_bytes_spec(client_data_json_raw@) == Err::<Seq<u8>, LazorKitError>(
                e,
            ),
        },
{
    let json_str = match utf8_text(client_data_json_raw) {
        None => {
            return Err(LazorKitError::ClientDataInvalidUtf8);
        },
        Some(s) => s,
    };
    let challenge = match json_member(json_str, "challenge") {
        None => {
            return Err(LazorKitError::ClientDataJsonParseError);
        },
        Some(None) => {
            return Err(LazorKitError::ChallengeMissing);
        },
        Some(Some(text)) => text,
    };
    challenge_from_text(challenge.as_str().as_bytes())
}

} // verus!
