use vstd::prelude::*;
use crate::services::payload::{json_bools, json_ints, json_nulls, json_texts};

verus! {

/// `jsonwebtoken::errors::Error`, the error of both `encode` and `decode`.
/// It is carried through unread.
#[verifier::external_type_specification]
#[verifier::external_body]
pub struct ExTokenError(jsonwebtoken::errors::Error);

/// The 128-bit value that `uuid::Uuid::parse_str` reads from a text, if it
/// accepts the text.
pub uninterp spec fn uuid_parsed(text: Seq<char>) -> Option<u128>;

/// The token that `jsonwebtoken::encode` makes of a payload under a secret,
/// with the default header (HS256), if it makes one.
pub uninterp spec fn signed_token(
    secret: Seq<char>,
    payload: serde_json::Map<String, serde_json::Value>,
) -> Option<Seq<char>>;

/// The payload that `jsonwebtoken::decode` reads from a token whose HS256
/// signature it has verified under a secret, with every check of the claims
/// switched off; `None` where it rejects the token.
pub uninterp spec fn token_payload(token: Seq<char>, secret: Seq<char>) -> Option<
    serde_json::Map<String, serde_json::Value>,
>;

/// The signature that `jsonwebtoken::crypto::sign` computes for HS256 over a
/// message with the secret as the HMAC key: the last segment of a token.
pub uninterp spec fn hs256_signature(secret: Seq<char>, message: Seq<char>) -> Seq<char>;

/// The number of dots in a text.
pub open spec fn dot_count(text: Seq<char>) -> nat
    decreases text.len(),
{
    if text.len() == 0 {
        0
    } else if text.last() == '.' {
        dot_count(text.drop_last()) + 1
    } else {
        dot_count(text.drop_last())
    }
}

/// The position of the last dot in a text, or -1 where it has none.
pub open spec fn last_dot(text: Seq<char>) -> int
    decreases text.len(),
{
    if text.len() == 0 {
        -1
    } else if text.last() == '.' {
        text.len() - 1
    } else {
        last_dot(text.drop_last())
    }
}

/// What a token's signature covers: header and payload, up to the last
/// dot.
pub open spec fn message_part(token: Seq<char>) -> Seq<char> {
    token.subrange(0, last_dot(token))
}

/// The signature segment of a token: what follows the last dot.
pub open spec fn signature_part(token: Seq<char>) -> Seq<char> {
    token.subrange(last_dot(token) + 1, token.len() as int)
}

/// Whether a token has three segments, the last of them the HS256
/// signature of the first two under `secret`.
pub open spec fn well_signed(token: Seq<char>, secret: Seq<char>) -> bool {
    dot_count(token) == 2 && signature_part(token) == hs256_signature(secret, message_part(token))
}

/// Whether every member of an object is an integer, a boolean, a string or
/// `null`.
pub open spec fn is_flat(payload: serde_json::Map<String, serde_json::Value>) -> bool {
    forall|key: Seq<char>| #[trigger]
        json_nulls(payload).dom().contains(key) ==> json_nulls(payload)[key] || json_ints(
            payload,
        ).dom().contains(key) || json_bools(payload).dom().contains(key) || json_texts(
            payload,
        ).dom().contains(key)
}

/// Calls `uuid::Uuid::to_string` on the UUID of the given value: the
/// hyphenated text, which `parse_str` reads back as the same value.
#[verifier::external_body]
pub(crate) fn uuid_text(id: u128) -> (text: String)
    ensures
        uuid_parsed(text@) == Some(id),
{
    uuid::Uuid::from_u128(id).to_string()
}

/// Calls `uuid::Uuid::parse_str`, whose answer depends on the text alone.
#[verifier::external_body]
pub(crate) fn uuid_parse(text: &str) -> (id: Option<u128>)
    ensures
        id == uuid_parsed(text@),
{
    uuid::Uuid::parse_str(text).ok().as_ref().map(uuid::Uuid::as_u128)
}

/// Calls `jsonwebtoken::encode` with the default header and the secret as
/// an HMAC key. The token is a function of secret and payload: two
/// base64url segments and the HS256 signature of both, joined by dots. A
/// payload whose members are all integers, booleans, strings or `null` is
/// read back unchanged by `decode` under the same secret.
#[verifier::external_body]
pub(crate) fn sign_payload(secret: &str, payload: &serde_json::Map<String, serde_json::Value>) -> (made:
    Result<String, jsonwebtoken::errors::Error>)
    ensures
        match made {
            Ok(token) => signed_token(secret@, *payload) == Some(token@) && dot_count(token@) == 2
                && signature_part(token@) == hs256_signature(secret@, message_part(token@)) && (
            is_flat(*payload) ==> token_payload(token@, secret@) == Some(*payload)),
            Err(_) => signed_token(secret@, *payload).is_none(),
        },
{
    let key = jsonwebtoken::EncodingKey::from_secret(secret.as_bytes());
    jsonwebtoken::encode(&jsonwebtoken::Header::default(), payload, &key)
}

/// Calls `jsonwebtoken::decode` for HS256 with the secret as the HMAC key
/// and with the checks of `exp` and `aud` and the required claims switched
/// off, so that the answer depends on token and secret alone. It accepts a
/// token only if it has exactly three segments and the last is the
/// signature that it computes itself over the first two.
#[verifier::external_body]
pub(crate) fn open_token(token: &str, secret: &str) -> (opened: Result<
    serde_json::Map<String, serde_json::Value>,
    jsonwebtoken::errors::Error,
>)
    ensures
        match opened {
            Ok(payload) => token_payload(token@, secret@) == Some(payload) && dot_count(token@)
                == 2 && signature_part(token@) == hs256_signature(secret@, message_part(token@)),
            Err(_) => token_payload(token@, secret@).is_none(),
        },
{
    let mut rules = jsonwebtoken::Validation::new(jsonwebtoken::Algorithm::HS256);
    rules.validate_exp = false;
    rules.validate_aud = false;
    rules.required_spec_claims.clear();
    let key = jsonwebtoken::DecodingKey::from_secret(secret.as_bytes());
    jsonwebtoken::decode(token, &key, &rules).map(|data| data.claims)
}

/// Calls `chrono::Utc::now` and `timestamp`: the seconds since the Unix
/// epoch on this machine's clock. Nothing is claimed of the value.
#[verifier::external_body]
pub(crate) fn unix_now() -> i64 {
    chrono::Utc::now().timestamp()
}

} // verus!
