//! Builds the authentication result that is then sealed and delivered.

use vstd::prelude::*;
use crate::codec::{base64_url_decoded, decode_attributes, names_of_json, names_view};
use crate::error::{ConfigError, ProviderError};
use crate::policy::{all_supported, is_first_unknown, resolves_to, Config};

verus! {

/// The outcome of one authentication attempt.
#[derive(Debug, Clone, Copy, PartialEq, Eq, Structural)]
pub enum AuthStatus {
    Success,
    Failure,
}

/// The result record of one authentication, before it is sealed.
#[derive(Debug)]
pub struct AuthResult {
    pub status: AuthStatus,
    /// Each requested attribute with its resolved value.
    pub attributes: Option<Vec<(String, String)>>,
    /// Where the client reports session activity, when sessions are enabled.
    pub session_url: Option<String>,
}

/// The session URL that a result carries under `config`.
pub open spec fn session_url_of(config: Config) -> Option<Seq<char>> {
    if config.with_session {
        Some(config.server_url@ + "/session/update"@)
    } else {
        None
    }
}

/// `result` is the successful result for `names` under `config`.
pub open spec fn is_result_for(config: Config, names: Seq<Seq<char>>, result: AuthResult) -> bool {
    &&& result.status == AuthStatus::Success
    &&& result.attributes matches Some(v) && resolves_to(config.attributes@, names, v@)
    &&& match (result.session_url, session_url_of(config)) {
        (Some(u), Some(w)) => u@ == w,
        (None, None) => true,
        _ => false,
    }
}

/// Resolves the requested attributes and builds a successful result; a
/// policy refusal is passed on unchanged.
pub fn assemble(config: &Config, names: &Vec<String>) -> (r: Result<AuthResult, ProviderError>)
    ensures
        r is Ok <==> all_supported(config.attributes@, names_view(names@)),
        match r {
            Ok(result) => is_result_for(*config, names_view(names@), result),
            Err(ProviderError::Config(ConfigError::UnknownAttribute(n))) => is_first_unknown(
                config.attributes@,
                names_view(names@),
                n@,
            ),
            Err(_) => false,
        },
{
    let attributes = match config.map_attributes(names) {
        Ok(v) => v,
        Err(e) => {
            return Err(ProviderError::Config(e));
        },
    };
    let session_url = if config.with_session {
        let mut url = config.server_url.clone();
        url.append("/session/update");
        Some(url)
    } else {
        None
    };
    Ok(AuthResult { status: AuthStatus::Success, attributes: Some(attributes), session_url })
}

/// Decodes the attribute token of a browser URL and assembles the result for
/// it, failing at the first stage that breaks.
pub fn resolve_result(config: &Config, attributes_token: &str) -> (r: Result<
    AuthResult,
    ProviderError,
>)
    ensures
        match r {
            Ok(result) => exists|b: Seq<u8>, names: Seq<Seq<char>>|
                base64_url_decoded(attributes_token@) == Some(b) && #[trigger] names_of_json(b)
                    == Some(names) && #[trigger] is_result_for(*config, names, result),
            Err(ProviderError::Decode(_)) => base64_url_decoded(attributes_token@) is None,
            Err(ProviderError::Json(_)) => exists|b: Seq<u8>|
                base64_url_decoded(attributes_token@) == Some(b) && #[trigger] names_of_json(b)
                    is None,
            Err(ProviderError::Config(ConfigError::UnknownAttribute(n))) => exists|
                b: Seq<u8>,
                names: Seq<Seq<char>>,
            |
                base64_url_decoded(attributes_token@) == Some(b) && #[trigger] names_of_json(b)
                    == Some(names) && #[trigger] is_first_unknown(
                    config.attributes@,
                    names,
                    n@,
                ),
            Err(_) => false,
        },
        forall|n: Seq<Seq<char>>|
            attributes_token@ == #[trigger] crate::codec::attributes_token(n)
                && all_supported(config.attributes@, n) ==> (r is Ok && is_result_for(
                *config,
                n,
                r->Ok_0,
            )),
{
    let names = decode_attributes(attributes_token)?;
    assemble(config, &names)
}

} // verus!
