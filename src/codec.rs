//! URL-safe encoding of the values that travel inside the browser URL: raw
//! bytes, attribute lists (as JSON) and plain strings (as UTF-8).

use vstd::prelude::*;
use vstd::utf8::{decode_utf8, encode_utf8, valid_utf8};
use crate::error::ProviderError;

verus! {

broadcast use vstd::utf8::group_utf8_lib;

/// The padded URL-safe base64 text of a byte sequence.
pub uninterp spec fn base64_url(bytes: Seq<u8>) -> Seq<char>;

/// The bytes that a URL-safe base64 text stands for, if it is well formed.
pub uninterp spec fn base64_url_decoded(text: Seq<char>) -> Option<Seq<u8>>;

/// The JSON text of an array of strings.
pub uninterp spec fn json_of_names(names: Seq<Seq<char>>) -> Seq<u8>;

/// The array of strings that a JSON text holds, if it holds one.
pub uninterp spec fn names_of_json(bytes: Seq<u8>) -> Option<Seq<Seq<char>>>;

/// A character that needs no escaping in a URL path segment and is in the
/// URL-safe base64 alphabet or its padding.
pub open spec fn is_url_safe_char(c: char) -> bool {
    ('A' <= c && c <= 'Z') || ('a' <= c && c <= 'z') || ('0' <= c && c <= '9') || c == '-'
        || c == '_' || c == '='
}

pub open spec fn is_url_safe(text: Seq<char>) -> bool {
    forall|i: int| 0 <= i < text.len() ==> is_url_safe_char(#[trigger] text[i])
}

/// The character sequences of a list of strings.
pub open spec fn names_view(names: Seq<String>) -> Seq<Seq<char>> {
    names.map_values(|s: String| s@)
}

/// Position by position, the views of a list of strings are its characters.
pub broadcast proof fn lemma_names_view(names: Seq<String>)
    ensures
        #[trigger] names_view(names).len() == names.len(),
        forall|i: int| 0 <= i < names.len() ==> #[trigger] names_view(names)[i] == names[i]@,
{
}

/// Relies on base64::encode_config with base64::URL_SAFE: the padded URL-safe
/// base64 text of the bytes, written with `A-Z`, `a-z`, `0-9`, `-`, `_` and `=`.
#[verifier::external_body]
fn base64_encode(bytes: &[u8]) -> (r: String)
    ensures
        r@ == base64_url(bytes@),
        is_url_safe(r@),
{
    base64::encode_config(bytes, base64::URL_SAFE)
}

/// Relies on base64::decode_config with base64::URL_SAFE: it fails exactly on
/// text that is not URL-safe base64, and gives back the bytes of any text that
/// base64::encode_config wrote with the same configuration.
#[verifier::external_body]
fn base64_decode(text: &str) -> (r: Result<Vec<u8>, base64::DecodeError>)
    ensures
        match r {
            Ok(b) => base64_url_decoded(text@) == Some(b@),
            Err(_) => base64_url_decoded(text@) is None,
        },
        forall|b: Seq<u8>| text@ == #[trigger] base64_url(b) ==> (r is Ok && r->Ok_0@ == b),
{
    base64::decode_config(text, base64::URL_SAFE)
}

/// Relies on serde_json::to_vec on a `Vec<String>`: the JSON array of the
/// strings; it cannot fail, as a list of strings holds no map.
#[verifier::external_body]
fn json_encode_names(names: &Vec<String>) -> (r: Result<Vec<u8>, serde_json::Error>)
    ensures
        r is Ok,
        r->Ok_0@ == json_of_names(names_view(names@)),
{
    serde_json::to_vec(names)
}

/// Relies on serde_json::from_slice into a `Vec<String>`: it fails exactly on
/// bytes that are not a JSON array of strings, and reads back any array that
/// serde_json::to_vec wrote.
#[verifier::external_body]
fn json_decode_names(bytes: &[u8]) -> (r: Result<Vec<String>, serde_json::Error>)
    ensures
        match r {
            Ok(v) => names_of_json(bytes@) == Some(names_view(v@)),
            Err(_) => names_of_json(bytes@) is None,
        },
        forall|n: Seq<Seq<char>>|
            bytes@ == #[trigger] json_of_names(n) ==> (r is Ok && names_view(r->Ok_0@) == n),
{
    serde_json::from_slice(bytes)
}

/// Relies on std::str::from_utf8: it accepts exactly the valid UTF-8 byte
/// sequences and reads their characters.
#[verifier::external_body]
fn utf8_decode(bytes: &[u8]) -> (r: Result<String, std::str::Utf8Error>)
    ensures
        match r {
            Ok(s) => valid_utf8(bytes@) && s@ == decode_utf8(bytes@),
            Err(_) => !valid_utf8(bytes@),
        },
{
    std::str::from_utf8(bytes).map(|s| s.to_string())
}

/// Encodes bytes as a token that can stand as a URL path segment.
pub fn encode(bytes: &[u8]) -> (r: String)
    ensures
        r@ == base64_url(bytes@),
        is_url_safe(r@),
{
    base64_encode(bytes)
}

/// Decodes a token; decoding gives back exactly the bytes that were encoded.
pub fn decode(token: &str) -> (r: Result<Vec<u8>, ProviderError>)
    ensures
        match r {
            Ok(b) => base64_url_decoded(token@) == Some(b@),
            Err(e) => e is Decode && base64_url_decoded(token@) is None,
        },
        forall|b: Seq<u8>| token@ == #[trigger] base64_url(b) ==> (r is Ok && r->Ok_0@ == b),
{
    match base64_decode(token) {
        Ok(b) => Ok(b),
        Err(e) => Err(ProviderError::Decode(e)),
    }
}

/// The token of an attribute list: its JSON array, encoded.
pub open spec fn attributes_token(names: Seq<Seq<char>>) -> Seq<char> {
    base64_url(json_of_names(names))
}

/// The token of a string: its UTF-8 bytes, encoded.
pub open spec fn text_token(text: Seq<char>) -> Seq<char> {
    base64_url(encode_utf8(text))
}

/// Encodes an attribute list as a token.
pub fn encode_attributes(names: &Vec<String>) -> (r: Result<String, ProviderError>)
    ensures
        r is Ok,
        r->Ok_0@ == attributes_token(names_view(names@)),
        is_url_safe(r->Ok_0@),
{
    match json_encode_names(names) {
        Ok(json) => Ok(encode(json.as_slice())),
        Err(e) => Err(ProviderError::Json(e)),
    }
}

/// Decodes an attribute list, failing at the first stage that breaks: the
/// token (`Decode`) or the JSON (`Json`).
pub fn decode_attributes(token: &str) -> (r: Result<Vec<String>, ProviderError>)
    ensures
        match r {
            Ok(v) => exists|b: Seq<u8>|
                base64_url_decoded(token@) == Some(b) && #[trigger] names_of_json(b) == Some(
                    names_view(v@),
                ),
            Err(ProviderError::Decode(_)) => base64_url_decoded(token@) is None,
            Err(ProviderError::Json(_)) => exists|b: Seq<u8>|
                base64_url_decoded(token@) == Some(b) && #[trigger] names_of_json(b) is None,
            Err(_) => false,
        },
        forall|n: Seq<Seq<char>>|
            token@ == #[trigger] attributes_token(n) ==> (r is Ok && names_view(r->Ok_0@) == n),
{
    let bytes = decode(token)?;
    match json_decode_names(bytes.as_slice()) {
        Ok(v) => Ok(v),
        Err(e) => Err(ProviderError::Json(e)),
    }
}

/// Encodes a string (a continuation or callback URL) as a token.
pub fn encode_text(text: &str) -> (r: String)
    ensures
        r@ == text_token(text@),
        is_url_safe(r@),
{
    encode(text.as_bytes())
}

/// Decodes a string, failing at the first stage that breaks: the token
/// (`Decode`) or the UTF-8 (`Utf`).
pub fn decode_text(token: &str) -> (r: Result<String, ProviderError>)
    ensures
        match r {
            Ok(s) => exists|b: Seq<u8>|
                base64_url_decoded(token@) == Some(b) && #[trigger] valid_utf8(b) && s@
                    == decode_utf8(b),
            Err(ProviderError::Decode(_)) => base64_url_decoded(token@) is None,
            Err(ProviderError::Utf(_)) => exists|b: Seq<u8>|
                base64_url_decoded(token@) == Some(b) && !#[trigger] valid_utf8(b),
            Err(_) => false,
        },
        forall|t: Seq<char>| token@ == #[trigger] text_token(t) ==> (r is Ok && r->Ok_0@ == t),
{
    let bytes = decode(token)?;
    match utf8_decode(bytes.as_slice()) {
        Ok(s) => Ok(s),
        Err(e) => Err(ProviderError::Utf(e)),
    }
}

} // verus!
