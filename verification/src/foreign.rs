//! The calls into outside code. Nothing here is proved: each contract says what the called
//! function is known to do, and the rest of the crate is verified against that.

use base64::Engine;
use ed25519_dalek::Signer;
use ed25519_dalek::Verifier;
use rand::RngCore;
use sha2::Digest;
use vstd::prelude::*;
use vstd::utf8::is_ascii_chars;

use crate::json::{JsonValue, JsonView};
use crate::numeral::{hex_lower, is_hex_char};
use crate::text::ascii_lowercased;

verus! {

/// `base64::DecodeError`: why a text is not base64.
#[verifier::external_type_specification]
#[verifier::external_body]
pub struct ExDecodeError(base64::DecodeError);

/// `serde_json::Error`: why a text is not JSON.
#[verifier::external_type_specification]
#[verifier::external_body]
pub struct ExJsonError(serde_json::Error);

/// `serde_json::Value`: a parsed JSON document.
#[verifier::external_type_specification]
#[verifier::external_body]
pub struct ExJsonValue(serde_json::Value);

/// Appending a character to a string (`String::push`) adds it at the end.
pub assume_specification[ String::push ](s: &mut String, c: char)
    ensures
        final(s)@ == old(s)@.push(c),
;

/// The lower case of a text with characters beyond ASCII, as `str::to_lowercase` gives it.
pub uninterp spec fn unicode_lowercased(s: Seq<char>) -> Seq<char>;

/// The lower case of a text.
pub open spec fn lowercased(s: Seq<char>) -> Seq<char> {
    if is_ascii_chars(s) {
        ascii_lowercased(s)
    } else {
        unicode_lowercased(s)
    }
}

/// Calls `str::to_lowercase`. On ASCII text it maps `A` to `Z` onto `a` to `z` and keeps the rest;
/// beyond ASCII it follows the Unicode tables, and the result is only named.
#[verifier::external_body]
pub(crate) fn lowercase(s: &str) -> (r: String)
    ensures
        is_ascii_chars(s@) ==> r@ == ascii_lowercased(s@),
        !is_ascii_chars(s@) ==> r@ == unicode_lowercased(s@),
{
    s.to_lowercase()
}

/// A text between quotation marks with the escapes of `Debug` for `str`.
pub uninterp spec fn debug_quoted(s: Seq<char>) -> Seq<char>;

/// Formats a text with `{:?}`: the result is the `Debug` form of the text.
#[verifier::external_body]
pub(crate) fn debug_text(s: &str) -> (r: String)
    ensures
        r@ == debug_quoted(s@),
{
    format!("{:?}", s)
}

/// What a text says in padded base64 of the standard alphabet, if it is that.
pub uninterp spec fn base64_decoded(text: Seq<char>) -> Option<Seq<u8>>;

/// Calls `decode` of `base64::engine::general_purpose::STANDARD`: the bytes that the text says,
/// or an error exactly where it says none.
#[verifier::external_body]
pub(crate) fn base64_decode(text: &str) -> (r: Result<Vec<u8>, base64::DecodeError>)
    ensures
        match r {
            Ok(bytes) => base64_decoded(text@) == Some(bytes@),
            Err(_) => base64_decoded(text@) is None,
        },
{
    base64::engine::general_purpose::STANDARD.decode(text)
}

/// What a text says in unpadded base64 of the URL-safe alphabet, if it is that.
pub uninterp spec fn base64url_decoded(text: Seq<char>) -> Option<Seq<u8>>;

/// Calls `decode` of `base64::engine::general_purpose::URL_SAFE_NO_PAD`: the bytes that the text
/// says, or an error exactly where it says none.
#[verifier::external_body]
pub(crate) fn base64url_decode(text: &str) -> (r: Result<Vec<u8>, base64::DecodeError>)
    ensures
        match r {
            Ok(bytes) => base64url_decoded(text@) == Some(bytes@),
            Err(_) => base64url_decoded(text@) is None,
        },
{
    base64::engine::general_purpose::URL_SAFE_NO_PAD.decode(text)
}

/// The unpadded base64 of the URL-safe alphabet of some bytes.
pub uninterp spec fn base64url_encoded(data: Seq<u8>) -> Seq<char>;

/// `c` belongs to the URL-safe base64 alphabet.
pub open spec fn is_base64url_char(c: char) -> bool {
    'A' <= c <= 'Z' || 'a' <= c <= 'z' || '0' <= c <= '9' || c == '-' || c == '_'
}

/// Calls `encode` of `base64::engine::general_purpose::URL_SAFE_NO_PAD`. Three bytes become four
/// characters of the URL-safe alphabet, the rest is rounded up without padding, and decoding
/// gives the bytes back.
#[verifier::external_body]
pub(crate) fn base64url_encode(data: &[u8]) -> (r: String)
    ensures
        r@ == base64url_encoded(data@),
        r@.len() == (4 * data@.len() + 2) / 3,
        forall|i: int| 0 <= i < r@.len() ==> is_base64url_char(#[trigger] r@[i]),
        base64url_decoded(r@) == Some(data@),
{
    base64::engine::general_purpose::URL_SAFE_NO_PAD.encode(data)
}

/// Calls `hex::encode`: two lower-case hexadecimal digits for each byte, in order.
#[verifier::external_body]
pub(crate) fn hex_encode(data: &[u8]) -> (r: String)
    ensures
        r@ == hex_lower(data@),
{
    hex::encode(data)
}

/// The SHA-256 digest of some bytes.
pub uninterp spec fn sha256(data: Seq<u8>) -> Seq<u8>;

/// Calls `sha2::Sha256::digest`: the digest, of 32 bytes.
#[verifier::external_body]
pub(crate) fn sha256_digest(data: &[u8]) -> (r: Vec<u8>)
    ensures
        r@ == sha256(data@),
        r@.len() == 32,
{
    sha2::Sha256::digest(data).to_vec()
}

/// The Ed25519 public key that belongs to a seed of 32 bytes.
pub uninterp spec fn ed25519_public_key(seed: Seq<u8>) -> Seq<u8>;

/// The Ed25519 signature of a message under a seed of 32 bytes.
pub uninterp spec fn ed25519_signature(seed: Seq<u8>, message: Seq<u8>) -> Seq<u8>;

/// The bytes of a signature are one of the message under the bytes of a public key.
pub uninterp spec fn ed25519_valid(public_key: Seq<u8>, message: Seq<u8>, signature: Seq<u8>) -> bool;

/// Calls `verifying_key` of `ed25519_dalek::SigningKey`: the public key, of 32 bytes.
#[verifier::external_body]
pub(crate) fn ed25519_verifying_key(seed: &[u8; 32]) -> (r: Vec<u8>)
    ensures
        r@ == ed25519_public_key(seed@),
        r@.len() == 32,
{
    ed25519_dalek::SigningKey::from_bytes(seed).verifying_key().to_bytes().to_vec()
}

/// Calls `sign` of `ed25519_dalek::SigningKey`: the signature, of 64 bytes, which is fixed by the
/// seed and the message and is valid under the public key of that seed.
#[verifier::external_body]
pub(crate) fn ed25519_sign(seed: &[u8; 32], message: &[u8]) -> (r: Vec<u8>)
    ensures
        r@ == ed25519_signature(seed@, message@),
        r@.len() == 64,
        ed25519_valid(ed25519_public_key(seed@), message@, r@),
{
    ed25519_dalek::SigningKey::from_bytes(seed).sign(message).to_bytes().to_vec()
}

/// Calls `verify` of `ed25519_dalek::VerifyingKey`: whether the bytes are a public key and a
/// signature of the message under it.
#[verifier::external_body]
pub(crate) fn ed25519_verify(public_key: &[u8], message: &[u8], signature: &[u8]) -> (r: bool)
    ensures
        r == ed25519_valid(public_key@, message@, signature@),
{
    match (
        ed25519_dalek::VerifyingKey::try_from(public_key),
        ed25519_dalek::Signature::from_slice(signature),
    ) {
        (Ok(key), Ok(signature)) => key.verify(message, &signature).is_ok(),
        _ => false,
    }
}

/// Calls `rand::thread_rng` and `fill_bytes`: 32 random bytes, of which nothing is known.
#[verifier::external_body]
pub(crate) fn random_bytes() -> [u8; 32] {
    let mut bytes = [0u8; 32];
    rand::thread_rng().fill_bytes(&mut bytes);
    bytes
}

/// Calls `chrono::Utc::now`: the microseconds since 1970, not before 1970 and not after the year
/// 262142, the last that chrono holds.
#[verifier::external_body]
pub(crate) fn utc_now_micros() -> (r: i64)
    ensures
        0 <= r < 8_210_266_876_800_000_000,
{
    chrono::Utc::now().timestamp_micros()
}

/// `s` is a UUID of version 4 and of the RFC variant, in the hyphenated form.
pub open spec fn is_uuid_v4(s: Seq<char>) -> bool {
    &&& s.len() == 36
    &&& forall|i: int|
        0 <= i < 36 ==> if i == 8 || i == 13 || i == 18 || i == 23 {
            #[trigger] s[i] == '-'
        } else {
            is_hex_char(s[i])
        }
    &&& s[14] == '4'
    &&& s[19] == '8' || s[19] == '9' || s[19] == 'a' || s[19] == 'b'
}

/// Calls `uuid::Uuid::new_v4` and writes the result: a random UUID of version 4 and of the RFC
/// variant, in the hyphenated form with lower-case digits.
#[verifier::external_body]
pub(crate) fn uuid_v4() -> (r: String)
    ensures
        is_uuid_v4(r@),
{
    uuid::Uuid::new_v4().to_string()
}

/// The JSON string literal that says `s`.
pub uninterp spec fn json_quoted(s: Seq<char>) -> Seq<char>;

/// Calls `serde_json::to_string` on a text: its JSON string literal. Writing a text into memory
/// has no way to fail.
#[verifier::external_body]
pub(crate) fn json_quote(s: &str) -> (r: Result<String, serde_json::Error>)
    ensures
        r is Ok,
        r->Ok_0@ == json_quoted(s@),
{
    serde_json::to_string(s)
}

/// What a text says in JSON, if it is that.
pub uninterp spec fn json_document(bytes: Seq<u8>) -> Option<JsonView>;

/// What a parsed JSON document says.
pub uninterp spec fn json_content(value: serde_json::Value) -> JsonView;

/// Calls `serde_json::from_slice` for a `serde_json::Value`: the document that the bytes say, or
/// an error exactly where they say none.
#[verifier::external_body]
pub(crate) fn json_from_slice(bytes: &[u8]) -> (r: Result<serde_json::Value, serde_json::Error>)
    ensures
        match r {
            Ok(value) => json_document(bytes@) == Some(json_content(value)),
            Err(_) => json_document(bytes@) is None,
        },
{
    serde_json::from_slice(bytes)
}

/// Takes a `serde_json::Value` over, variant by variant: the document says the same. A number is
/// taken by the text that its `Display` gives.
#[verifier::external_body]
pub(crate) fn json_value(value: serde_json::Value) -> (r: JsonValue)
    ensures
        r@ == json_content(value),
{
    match value {
        serde_json::Value::Null => JsonValue::Null,
        serde_json::Value::Bool(b) => JsonValue::Bool(b),
        serde_json::Value::Number(n) => JsonValue::Number(n.to_string()),
        serde_json::Value::String(s) => JsonValue::Text(s),
        serde_json::Value::Array(items) => {
            JsonValue::Array(items.into_iter().map(json_value).collect())
        },
        serde_json::Value::Object(members) => {
            JsonValue::Object(members.into_iter().map(|(k, v)| (k, json_value(v))).collect())
        },
    }
}

} // verus!
