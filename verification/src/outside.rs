//! The calls that leave this crate.  Verus takes the contracts in this file on
//! trust: each states what the called function's source shows.

use crate::auth::{ClaimField, Field};
use vstd::prelude::*;

verus! {

/// `serde_json::Value`, a JSON document.
#[verifier::external_type_specification]
#[verifier::external_body]
pub struct ExJsonValue(serde_json::Value);

/// `jsonwebtoken::errors::Error`, why a token was refused.
#[verifier::external_type_specification]
#[verifier::external_body]
pub struct ExTokenError(jsonwebtoken::errors::Error);

/// The members of a JSON document: for an object, each key with the kind and
/// content of its value; for any other document, nothing.
pub uninterp spec fn payload_fields(payload: serde_json::Value) -> Map<Seq<char>, Field>;

/// The members of the payload of `token`, where `jsonwebtoken::decode` accepts
/// the token under the key `secret` with HS256 as the only algorithm and
/// without looking at the clock; `None` where it refuses the token.
pub uninterp spec fn verified_payload(token: Seq<char>, secret: Seq<char>) -> Option<
    Map<Seq<char>, Field>,
>;

/// The standard base64 text, with padding, of the UTF-8 bytes of `text`.
pub uninterp spec fn base64_text(text: Seq<char>) -> Seq<char>;

/// The lower-case form of a text, as `str::to_lowercase` gives it.
pub uninterp spec fn lowercase_text(text: Seq<char>) -> Seq<char>;

/// Calls `str::to_lowercase`, which depends on the text alone.
#[verifier::external_body]
pub(crate) fn lowercase(text: &str) -> (r: String)
    ensures
        r@ == lowercase_text(text@),
{
    text.to_lowercase()
}

/// Calls `jsonwebtoken::decode` with `Validation::new(Algorithm::HS256)`, in
/// which the check of `exp` against the clock is switched off.  The call
/// checks the shape of the token, that its header names HS256, its signature
/// under `secret`, that the payload is JSON and that it holds a numeric `exp`.
/// With the clock out of play the outcome depends on the two texts alone.
#[verifier::external_body]
pub(crate) fn decode_payload(token: &str, secret: &str) -> (r: Result<
    serde_json::Value,
    jsonwebtoken::errors::Error,
>)
    ensures
        match r {
            Ok(payload) => verified_payload(token@, secret@) == Some(payload_fields(payload)),
            Err(_) => verified_payload(token@, secret@) is None,
        },
{
    let mut validation = jsonwebtoken::Validation::new(jsonwebtoken::Algorithm::HS256);
    validation.validate_exp = false;
    let key = jsonwebtoken::DecodingKey::from_secret(secret.as_bytes());
    jsonwebtoken::decode::<serde_json::Value>(token, &key, &validation).map(|data| data.claims)
}

/// Calls `serde_json::Value::get` with a text key and tells the variants of
/// the value apart: absent, null, a string, a number that `Number::as_u64`
/// gives as an unsigned integer, or anything else.
#[verifier::external_body]
pub(crate) fn payload_field(payload: &serde_json::Value, name: &str) -> (r: ClaimField)
    ensures
        r@ == crate::auth::field_at(payload_fields(*payload), name@),
{
    match payload.get(name) {
        None => ClaimField::Missing,
        Some(serde_json::Value::Null) => ClaimField::Null,
        Some(serde_json::Value::String(text)) => ClaimField::Text(text.clone()),
        Some(serde_json::Value::Number(number)) => match number.as_u64() {
            Some(value) => ClaimField::Unsigned(value),
            None => ClaimField::Other,
        },
        Some(_) => ClaimField::Other,
    }
}

/// The `Display` text of a `jsonwebtoken::errors::Error`.  Nothing is claimed
/// of it.
#[verifier::external_body]
pub(crate) fn token_error_text(error: &jsonwebtoken::errors::Error) -> String {
    error.to_string()
}

/// Calls `Engine::encode` of `base64::engine::general_purpose::STANDARD` on
/// the bytes of `text`.
#[verifier::external_body]
pub(crate) fn encode_base64(text: &str) -> (r: String)
    ensures
        r@ == base64_text(text@),
{
    base64::Engine::encode(&base64::engine::general_purpose::STANDARD, text.as_bytes())
}

/// Calls `chrono::Utc::now` and `DateTime::timestamp`: the seconds since the
/// epoch on this machine's clock.  Nothing is claimed of the number.
#[verifier::external_body]
pub(crate) fn clock_seconds() -> i64 {
    chrono::Utc::now().timestamp()
}

/// Calls `chrono::Utc::now` and `DateTime::to_rfc3339`: the present moment as
/// text.  Nothing is claimed of the text.
#[verifier::external_body]
pub(crate) fn clock_rfc3339() -> String {
    chrono::Utc::now().to_rfc3339()
}

/// Calls `uuid::Uuid::new_v4` and formats the identifier with its `Display`,
/// the hyphenated form of 36 characters.  Which identifier comes is left open.
#[verifier::external_body]
pub(crate) fn random_uuid() -> (r: String)
    ensures
        r@.len() == 36,
{
    uuid::Uuid::new_v4().to_string()
}

} // verus!
