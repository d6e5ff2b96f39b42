//! Routes a sealed result to the relying party: inline, attached to the
//! continuation URL, or out of band, pushed to a callback URL while the
//! browser goes to the bare continuation URL.

use vstd::prelude::*;
use vstd::string::*;
use vstd::utf8::{decode_utf8, valid_utf8};
use crate::codec::{base64_url_decoded, decode_text, text_token};
use crate::error::ProviderError;

verus! {

/// The media type of a pushed result: a signed and encrypted JWT.
pub const JWT_CONTENT_TYPE: &'static str = "application/jwt";

/// A "303 See Other" redirect of the browser.
#[derive(Debug)]
pub struct Redirect {
    pub location: String,
}

/// An HTTP POST of a sealed result to a callback URL.
#[derive(Debug)]
pub struct Push {
    pub url: String,
    pub content_type: String,
    pub body: String,
}

/// Out-of-band delivery: the push to dispatch, and the redirect that answers
/// the browser whatever becomes of the push.
#[derive(Debug)]
pub struct OutOfBand {
    pub push: Push,
    pub redirect: Redirect,
}

pub open spec fn has_query(url: Seq<char>) -> bool {
    exists|i: int| 0 <= i < url.len() && url[i] == '?'
}

/// The continuation URL with the sealed result attached as the `result`
/// query parameter.
pub open spec fn with_result(url: Seq<char>, token: Seq<char>) -> Seq<char> {
    if has_query(url) {
        url + "&result="@ + token
    } else {
        url + "?result="@ + token
    }
}

/// The string that a token decodes to, where it decodes to one.
pub open spec fn decoded_text(token: Seq<char>, text: Seq<char>) -> bool {
    exists|b: Seq<u8>|
        base64_url_decoded(token) == Some(b) && #[trigger] valid_utf8(b) && text == decode_utf8(b)
}

/// Whether the URL already has a query part.
pub fn contains_query(url: &str) -> (r: bool)
    ensures
        r == has_query(url@),
{
    let n = url.unicode_len();
    let mut i: usize = 0;
    while i < n
        invariant
            n == url@.len(),
            0 <= i <= n,
            forall|j: int| 0 <= j < i ==> url@[j] != '?',
        decreases n - i,
    {
        if url.get_char(i) == '?' {
            return true;
        }
        i = i + 1;
    }
    false
}

/// Attaches the sealed result to the continuation URL: after `&` where the
/// URL has a query part already, after `?` where it has none.
pub fn attach_result(url: &str, token: &str) -> (r: String)
    ensures
        r@ == with_result(url@, token@),
{
    let mut location = String::from_str(url);
    if contains_query(url) {
        location.append("&result=");
    } else {
        location.append("?result=");
    }
    location.append(token);
    location
}

/// Inline delivery: decodes the continuation token and redirects the browser
/// there with the sealed result attached.
pub fn deliver_inline(continuation_token: &str, token: &str) -> (r: Result<Redirect, ProviderError>)
    ensures
        match r {
            Ok(redirect) => exists|url: Seq<char>|
                #[trigger] decoded_text(continuation_token@, url) && redirect.location@
                    == with_result(url, token@),
            Err(ProviderError::Decode(_)) => base64_url_decoded(continuation_token@) is None,
            Err(ProviderError::Utf(_)) => exists|b: Seq<u8>|
                base64_url_decoded(continuation_token@) == Some(b) && !#[trigger] valid_utf8(b),
            Err(_) => false,
        },
        forall|url: Seq<char>|
            continuation_token@ == #[trigger] text_token(url) ==> (r is Ok
                && r->Ok_0.location@ == with_result(url, token@)),
{
    let continuation = decode_text(continuation_token)?;
    assert(decoded_text(continuation_token@, continuation@));
    Ok(Redirect { location: attach_result(continuation.as_str(), token) })
}

/// Out-of-band delivery: decodes the continuation and callback tokens, in that
/// order, and plans a push of the sealed result to the callback URL beside a
/// redirect to the bare continuation URL. The redirect is fixed here, before
/// the push is dispatched, so no outcome of the push can change it.
pub fn deliver_out_of_band(continuation_token: &str, callback_token: &str, token: &str) -> (r:
    Result<OutOfBand, ProviderError>)
    ensures
        match r {
            Ok(plan) => {
                &&& decoded_text(continuation_token@, plan.redirect.location@)
                &&& decoded_text(callback_token@, plan.push.url@)
                &&& plan.push.body@ == token@
                &&& plan.push.content_type@ == JWT_CONTENT_TYPE@
            },
            Err(ProviderError::Decode(_)) => base64_url_decoded(continuation_token@) is None || (
            exists|url: Seq<char>| #[trigger] decoded_text(continuation_token@, url))
                && base64_url_decoded(callback_token@) is None,
            Err(ProviderError::Utf(_)) => exists|b: Seq<u8>|
                (base64_url_decoded(continuation_token@) == Some(b) || base64_url_decoded(
                    callback_token@,
                ) == Some(b)) && !#[trigger] valid_utf8(b),
            Err(_) => false,
        },
        forall|url: Seq<char>, callback: Seq<char>|
            continuation_token@ == #[trigger] text_token(url) && callback_token@
                == #[trigger] text_token(callback) ==> (r is Ok && r->Ok_0.redirect.location@
                == url && r->Ok_0.push.url@ == callback && r->Ok_0.push.body@ == token@),
{
    let continuation = decode_text(continuation_token)?;
    assert(decoded_text(continuation_token@, continuation@));
    let callback = decode_text(callback_token)?;
    assert(decoded_text(callback_token@, callback@));
    Ok(
        OutOfBand {
            push: Push {
                url: callback,
                content_type: String::from_str(JWT_CONTENT_TYPE),
                body: String::from_str(token),
            },
            redirect: Redirect { location: continuation },
        },
    )
}

} // verus!
