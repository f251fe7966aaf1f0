//! What this library takes on trust: its calls into the `jsonwebtoken`,
//! `uuid` and `serde_json` crates, each with the little that is claimed of
//! it.
//!
//! Nothing here is proved. Every other module is, on the strength of what
//! is claimed here.

use crate::middleware::{
    DecodeFailure, SignatureAlgorithm, TokenPayload, TokenPayloadModel, ValidationSettings,
    ValidationSettingsModel,
};
use jsonwebtoken::errors::ErrorKind;
use vstd::prelude::*;

verus! {

/// `jsonwebtoken::DecodingKey`, a key to check signatures with. Opaque.
#[verifier::external_type_specification]
#[verifier::external_body]
pub struct ExDecodingKey(jsonwebtoken::DecodingKey);

/// `jsonwebtoken::Validation`, what is asked of a token. Opaque.
#[verifier::external_type_specification]
#[verifier::external_body]
pub struct ExValidation(jsonwebtoken::Validation);

/// `jsonwebtoken::errors::Error`, a refusal by the token library. Opaque.
#[verifier::external_type_specification]
#[verifier::external_body]
pub struct ExDecodeError(jsonwebtoken::errors::Error);

/// The key that `DecodingKey::from_ec_components` makes of the two
/// coordinates; `None` where it refuses them. It makes one where each
/// coordinate can be read as base64 in the URL-safe alphabet.
pub uninterp spec fn ec_key(x: Seq<char>, y: Seq<char>) -> Option<jsonwebtoken::DecodingKey>;

/// Whether the two coordinates can be read: whether a key is made of them.
pub open spec fn ec_point_readable(x: Seq<char>, y: Seq<char>) -> bool {
    ec_key(x, y) is Some
}

/// `jsonwebtoken::DecodingKey::from_ec_components`: the public key of the
/// point with the given coordinates. Trusted: the key, or that none is
/// made, depends on the two texts alone and is what `ec_key` names.
#[verifier::external_body]
pub(crate) fn ec_decoding_key(x: &str, y: &str) -> (made: Result<
    jsonwebtoken::DecodingKey,
    jsonwebtoken::errors::Error,
>)
    ensures
        match made {
            Ok(key) => ec_key(x@, y@) == Some(key),
            Err(_) => ec_key(x@, y@) is None,
        },
{
    jsonwebtoken::DecodingKey::from_ec_components(x, y)
}

/// The key that `DecodingKey::from_secret` makes of the bytes of a text.
pub uninterp spec fn secret_key(secret: Seq<char>) -> jsonwebtoken::DecodingKey;

/// `jsonwebtoken::DecodingKey::from_secret`: the key that is the bytes of
/// `secret`. Trusted: the key depends on the text alone and is what
/// `secret_key` names.
#[verifier::external_body]
pub(crate) fn secret_decoding_key(secret: &str) -> (key: jsonwebtoken::DecodingKey)
    ensures
        key == secret_key(secret@),
{
    jsonwebtoken::DecodingKey::from_secret(secret.as_bytes())
}

/// The `jsonwebtoken::Validation` that holds the given settings and is
/// otherwise as `Validation::new` makes it.
pub uninterp spec fn validation_for(settings: ValidationSettingsModel) -> jsonwebtoken::Validation;

/// `jsonwebtoken::Validation::new` for the settings' algorithm, with each
/// other setting written into the field of the same name, the two lists as
/// sets. Trusted: the result depends on the settings alone and is what
/// `validation_for` names.
///
/// The token library subtracts the allowance from the clock's reading, in
/// seconds since 1970: an allowance beyond a day is left out.
#[verifier::external_body]
pub(crate) fn validation_from(settings: &ValidationSettings) -> (made: jsonwebtoken::Validation)
    requires
        settings.leeway <= 86400,
    ensures
        made == validation_for(settings@),
{
    let mut validation = jsonwebtoken::Validation::new(
        match settings.algorithm {
            SignatureAlgorithm::Es256 => jsonwebtoken::Algorithm::ES256,
            SignatureAlgorithm::Hs256 => jsonwebtoken::Algorithm::HS256,
        },
    );
    validation.leeway = settings.leeway;
    validation.validate_exp = settings.validate_exp;
    validation.validate_aud = settings.validate_aud;
    validation.aud = Some(settings.audiences.iter().cloned().collect());
    validation.required_spec_claims = settings.required_spec_claims.iter().cloned().collect();
    validation
}

/// `jsonwebtoken::errors::Error::kind`, as a value of this library. Nothing
/// is claimed of the result.
#[verifier::external_body]
pub(crate) fn failure_of(error: &jsonwebtoken::errors::Error) -> DecodeFailure {
    match error.kind() {
        ErrorKind::InvalidToken => DecodeFailure::InvalidToken,
        ErrorKind::InvalidSignature => DecodeFailure::InvalidSignature,
        ErrorKind::InvalidAlgorithm => DecodeFailure::InvalidAlgorithm,
        ErrorKind::MissingAlgorithm => DecodeFailure::MissingAlgorithm,
        ErrorKind::MissingRequiredClaim(_) => DecodeFailure::MissingRequiredClaim,
        ErrorKind::ExpiredSignature => DecodeFailure::ExpiredSignature,
        ErrorKind::ImmatureSignature => DecodeFailure::ImmatureSignature,
        ErrorKind::InvalidIssuer => DecodeFailure::InvalidIssuer,
        ErrorKind::InvalidAudience => DecodeFailure::InvalidAudience,
        ErrorKind::InvalidSubject => DecodeFailure::InvalidSubject,
        ErrorKind::Base64(_) => DecodeFailure::Base64,
        ErrorKind::Json(_) => DecodeFailure::Json,
        _ => DecodeFailure::Other,
    }
}

/// What the payload of `token` holds of the three claims, where
/// `jsonwebtoken::decode` accepts the token.
pub uninterp spec fn token_payload(token: Seq<char>) -> TokenPayloadModel;

/// `jsonwebtoken::decode`: checks the signature of `token` with `key`, then
/// the registered claims as `validation` asks, against the clock. Trusted:
/// where the call accepts the token, what comes back is what the token's
/// payload holds, whatever the key, the checks and the time. When the call
/// accepts is not claimed.
#[verifier::external_body]
pub(crate) fn decode_payload(
    token: &str,
    key: &jsonwebtoken::DecodingKey,
    validation: &jsonwebtoken::Validation,
) -> (decoded: Result<TokenPayload, jsonwebtoken::errors::Error>)
    ensures
        decoded matches Ok(payload) ==> payload@ == token_payload(token@),
{
    match jsonwebtoken::decode::<serde_json::Value>(token, key, validation) {
        Ok(data) => Ok(
            TokenPayload {
                sub: data.claims.get("sub").and_then(serde_json::Value::as_str).map(str::to_owned),
                email: data.claims.get("email").and_then(serde_json::Value::as_str).map(str::to_owned),
                exp: data.claims.get("exp").and_then(serde_json::Value::as_u64),
            },
        ),
        Err(error) => Err(error),
    }
}

/// The identifier that `text` is the written form of, as
/// `uuid::Uuid::parse_str` reads it; `None` where it refuses `text`.
pub uninterp spec fn uuid_of(text: Seq<char>) -> Option<u128>;

/// `uuid::Uuid::parse_str`, the identifier given by `Uuid::as_u128`.
/// Trusted: the result is `uuid_of` of the text.
#[verifier::external_body]
pub(crate) fn parse_uuid(text: &str) -> (parsed: Option<u128>)
    ensures
        parsed == uuid_of(text@),
{
    match uuid::Uuid::parse_str(text) {
        Ok(id) => Some(id.as_u128()),
        Err(_) => None,
    }
}

/// The text of member `name` of the JSON object that `document` is;
/// `None` where `document` is no JSON, no object, has no such member, or
/// the member is no text.
pub uninterp spec fn json_member_text(document: Seq<char>, name: Seq<char>) -> Option<Seq<char>>;

/// `serde_json::from_str` to a `serde_json::Value`, then the member `name`
/// of it as text. Trusted: the result is `json_member_text` of the two
/// texts.
#[verifier::external_body]
pub(crate) fn json_text_member(document: &str, name: &str) -> (found: Option<String>)
    ensures
        found.deep_view() == json_member_text(document@, name@),
{
    match serde_json::from_str::<serde_json::Value>(document) {
        Ok(value) => value.get(name).and_then(serde_json::Value::as_str).map(str::to_owned),
        Err(_) => None,
    }
}

} // verus!
