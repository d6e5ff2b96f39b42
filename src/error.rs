use vstd::prelude::*;

verus! {

/// A request that the attribute policy refuses.
#[derive(Debug)]
pub enum ConfigError {
    /// The named attribute is not one that this provider can supply.
    UnknownAttribute(String),
}

/// Every way in which a request to the provider fails, one variant per stage.
#[derive(Debug)]
pub enum ProviderError {
    /// The attribute policy refused the request.
    Config(ConfigError),
    /// A path segment was not URL-safe base64.
    Decode(base64::DecodeError),
    /// The decoded bytes were not the JSON that was expected.
    Json(serde_json::Error),
    /// The decoded bytes were not UTF-8 where a string was expected.
    Utf(std::str::Utf8Error),
    /// Signing or encrypting the result failed; the message describes why.
    Jwt(String),
}

} // verus!
