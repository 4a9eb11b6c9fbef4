//! The calls into other crates that the verified code makes, and what is
//! believed of each.

use base64::engine::general_purpose::URL_SAFE_NO_PAD;
use base64::Engine as _;
use vstd::prelude::*;

verus! {

/// Error of `base64::Engine::decode`.
#[verifier::external_type_specification]
#[verifier::external_body]
pub struct ExDecodeError(base64::DecodeError);

/// The bytes that an unpadded base64url text stands for, if it is one.
pub uninterp spec fn base64url_decoded(text: Seq<char>) -> Option<Seq<u8>>;

/// Calls `base64::Engine::decode` of `URL_SAFE_NO_PAD`. What comes back is a
/// function of the text alone: the decoded bytes, or an error exactly when the
/// text is not unpadded base64url. Which error it is, is left unsaid.
#[verifier::external_body]
pub(crate) fn base64url_decode(text: &str) -> (r: Result<Vec<u8>, base64::DecodeError>)
    ensures
        match r {
            Ok(bytes) => base64url_decoded(text@) == Some(bytes@),
            Err(_) => base64url_decoded(text@) is None,
        },
{
    URL_SAFE_NO_PAD.decode(text)
}

/// Error of `ring`'s signature verification.
#[verifier::external_type_specification]
#[verifier::external_body]
pub struct ExUnspecified(ring::error::Unspecified);

/// Whether `signature` is an RSASSA-PKCS1-v1_5 signature, with SHA-256, of
/// `message` under the public key of modulus `n` and exponent `e`, for a
/// modulus of 2048 to 8192 bits, its length taken in whole bytes.
pub uninterp spec fn rsa_pkcs1_sha256_valid(
    n: Seq<u8>,
    e: Seq<u8>,
    message: Seq<u8>,
    signature: Seq<u8>,
) -> bool;

/// Calls `ring::signature::RsaPublicKeyComponents::verify` with the parameters
/// `RSA_PKCS1_2048_8192_SHA256`. Whether it accepts is a function of the key,
/// the message and the signature alone.
#[verifier::external_body]
pub(crate) fn rsa_pkcs1_sha256_verify(n: &[u8], e: &[u8], message: &[u8], signature: &[u8]) -> (r:
    Result<(), ring::error::Unspecified>)
    ensures
        r is Ok <==> rsa_pkcs1_sha256_valid(n@, e@, message@, signature@),
{
    ring::signature::RsaPublicKeyComponents { n, e }.verify(
        &ring::signature::RSA_PKCS1_2048_8192_SHA256,
        message,
        signature,
    )
}

/// A JSON value.
#[verifier::external_type_specification]
#[verifier::external_body]
pub struct ExValue(serde_json::Value);

/// A JSON object's members.
#[verifier::external_type_specification]
#[verifier::external_body]
#[verifier::reject_recursive_types(K)]
#[verifier::reject_recursive_types(V)]
pub struct ExJsonMap<K, V>(serde_json::Map<K, V>);

/// `Clone` of a JSON object: an equal object.
pub assume_specification[ <serde_json::Map<String, serde_json::Value> as Clone>::clone ](
    object: &serde_json::Map<String, serde_json::Value>,
) -> (r: serde_json::Map<String, serde_json::Value>)
    ensures
        r == *object,
;

/// Error of `serde_json::from_slice`.
#[verifier::external_type_specification]
#[verifier::external_body]
pub struct ExJsonError(serde_json::Error);

/// The JSON object that `json` is the text of, if it is one.
pub uninterp spec fn json_object(json: Seq<u8>) -> Option<
    serde_json::Map<String, serde_json::Value>,
>;

/// Calls `serde_json::from_slice` for an object of arbitrary members. What
/// comes back is a function of the bytes alone: the object, or an error exactly
/// when the bytes are not the text of one. Which error it is, is left unsaid.
#[verifier::external_body]
pub(crate) fn json_object_from_slice(json: &[u8]) -> (r: Result<
    serde_json::Map<String, serde_json::Value>,
    serde_json::Error,
>)
    ensures
        match r {
            Ok(object) => json_object(json@) == Some(object),
            Err(_) => json_object(json@) is None,
        },
{
    serde_json::from_slice(json)
}

/// A header map.
#[verifier::external_type_specification]
#[verifier::external_body]
#[verifier::reject_recursive_types(T)]
pub struct ExHeaderMap<T>(http::HeaderMap<T>);

/// A header's value.
#[verifier::external_type_specification]
#[verifier::external_body]
pub struct ExHeaderValue(http::HeaderValue);

/// Error of `http::HeaderValue::to_str`.
#[verifier::external_type_specification]
#[verifier::external_body]
pub struct ExToStrError(http::header::ToStrError);

/// The values that a header map holds under each name (in lower case), in the
/// order in which they were appended, as bytes. A name that it holds has a value.
pub uninterp spec fn header_values(headers: http::HeaderMap) -> Map<Seq<char>, Seq<Seq<u8>>>;

/// The bytes of a header value.
pub uninterp spec fn header_value_bytes(value: http::HeaderValue) -> Seq<u8>;

/// Calls `http::HeaderMap::get` for the `authorization` header: the first of the
/// values held under that name, or `None` when the map does not hold the name.
#[verifier::external_body]
pub(crate) fn authorization_header(headers: &http::HeaderMap) -> (r: Option<&http::HeaderValue>)
    ensures
        match r {
            Some(value) => {
                &&& header_values(*headers).contains_key("authorization"@)
                &&& header_values(*headers)["authorization"@].len() > 0
                &&& header_value_bytes(*value) == header_values(*headers)["authorization"@][0]
            },
            None => !header_values(*headers).contains_key("authorization"@),
        },
{
    headers.get(http::header::AUTHORIZATION)
}

/// Every byte is a visible ASCII character, a space or a tab.
pub open spec fn all_visible_ascii(bytes: Seq<u8>) -> bool {
    forall|i: int| 0 <= i < bytes.len() ==> 32 <= #[trigger] bytes[i] < 127 || bytes[i] == 9
}

/// ASCII bytes as characters.
pub open spec fn ascii_text(bytes: Seq<u8>) -> Seq<char> {
    bytes.map_values(|b: u8| b as char)
}

/// `http::HeaderValue::to_str`: the bytes of the value as characters, or an error
/// exactly when one of them is neither visible ASCII nor a space nor a tab.
pub assume_specification[ http::HeaderValue::to_str ](value: &http::HeaderValue) -> (r: Result<
    &str,
    http::header::ToStrError,
>)
    ensures
        match r {
            Ok(text) => {
                &&& all_visible_ascii(header_value_bytes(*value))
                &&& text@ == ascii_text(header_value_bytes(*value))
            },
            Err(_) => !all_visible_ascii(header_value_bytes(*value)),
        },
;

/// Calls `time::OffsetDateTime::now_utc` and `unix_timestamp`: the seconds since
/// the Unix epoch. Nothing is said of the result, which rests on the clock.
#[verifier::external_body]
pub(crate) fn unix_now() -> i64 {
    time::OffsetDateTime::now_utc().unix_timestamp()
}

/// A status code and its reason phrase, as in `401 Unauthorized`.
pub uninterp spec fn status_text(code: u16) -> Seq<char>;

/// Formats an `http::StatusCode`: the text is a function of the code alone.
/// `http::StatusCode::from_u16` takes the codes 100 to 999.
#[verifier::external_body]
pub(crate) fn status_to_string(code: u16) -> (r: String)
    requires
        100 <= code <= 999,
    ensures
        r@ == status_text(code),
{
    http::StatusCode::from_u16(code).unwrap().to_string()
}

} // verus!
