//! The start of an authentication: checks the request against the policy and
//! writes everything the later steps need into the browser URL.

use vstd::prelude::*;
use crate::codec::{attributes_token, encode_attributes, encode_text, names_view, text_token};
use crate::error::{ConfigError, ProviderError};
use crate::policy::{all_supported, is_first_unknown, Config};

verus! {

/// A relying party's request to start an authentication.
#[derive(Debug)]
pub struct StartAuthRequest {
    /// The attributes requested, in order.
    pub attributes: Vec<String>,
    /// Where the browser returns afterwards.
    pub continuation: String,
    /// Where the result is pushed out of band, if anywhere.
    pub attr_url: Option<String>,
}

/// The URL that the browser is sent to.
#[derive(Debug)]
pub struct StartAuthResponse {
    pub client_url: String,
}

/// `{base}/browser/{attributes}/{continuation}`, followed by
/// `/{callback}` where a callback URL was given; each segment a token.
pub open spec fn client_url_for(
    base: Seq<char>,
    names: Seq<Seq<char>>,
    continuation: Seq<char>,
    callback: Option<Seq<char>>,
) -> Seq<char> {
    let inline = base + "/browser/"@ + attributes_token(names) + "/"@ + text_token(continuation);
    match callback {
        Some(u) => inline + "/"@ + text_token(u),
        None => inline,
    }
}

pub open spec fn callback_view(attr_url: Option<String>) -> Option<Seq<char>> {
    match attr_url {
        Some(u) => Some(u@),
        None => None,
    }
}

/// Checks the requested attributes against the policy and builds the browser
/// URL; nothing is signed at this step.
pub fn start_authentication(config: &Config, request: &StartAuthRequest) -> (r: Result<
    StartAuthResponse,
    ProviderError,
>)
    ensures
        r is Ok <==> all_supported(config.attributes@, names_view(request.attributes@)),
        match r {
            Ok(response) => response.client_url@ == client_url_for(
                config.server_url@,
                names_view(request.attributes@),
                request.continuation@,
                callback_view(request.attr_url),
            ),
            Err(ProviderError::Config(ConfigError::UnknownAttribute(n))) => is_first_unknown(
                config.attributes@,
                names_view(request.attributes@),
                n@,
            ),
            Err(_) => false,
        },
{
    match config.verify_attributes(&request.attributes) {
        Ok(()) => {},
        Err(e) => {
            return Err(ProviderError::Config(e));
        },
    }
    let attributes = encode_attributes(&request.attributes)?;
    let continuation = encode_text(request.continuation.as_str());
    let mut client_url = config.server_url.clone();
    client_url.append("/browser/");
    client_url.append(attributes.as_str());
    client_url.append("/");
    client_url.append(continuation.as_str());
    match &request.attr_url {
        Some(attr_url) => {
            let callback = encode_text(attr_url.as_str());
            client_url.append("/");
            client_url.append(callback.as_str());
        },
        None => {},
    }
    Ok(StartAuthResponse { client_url })
}

} // verus!
