//! The RATSD challenge-response transport: its errors, the request to make
//! and the meaning of the answer.
use vstd::prelude::*;
use base64::Engine;
use crate::attesters::cca::ratsd::base64_url_nopad_decoding;
use crate::text::{concat2, concat3, decimal, owned, starts_with, u16_to_decimal};

verus! {

#[verifier::external_type_specification]
#[verifier::external_body]
pub struct ExReqwestError(reqwest::Error);

/// Errors that can arise from the RATSD HTTP transport layer.
#[derive(Debug)]
pub enum RatsdError {
    RequestFailed(reqwest::Error),
    HttpError { status: u16, body: String },
    ResponseParse(String),
    Custom(String),
}

/// The RATSD challenge-response endpoint, relative to the daemon's URL.
pub const CHARES_PATH: &'static str = "/ratsd/chares";

/// The media type of a challenge-response request.
pub const CHARES_CONTENT_TYPE: &'static str = "application/vnd.veraison.chares+json";

/// The media type accepted for a challenge-response answer.
pub const CHARES_ACCEPT: &'static str = "application/eat-ucs+json; eat_profile=\"tag:github.com,2024:veraison/ratsd\"";

/// The HTTP timeout for RATSD requests, in seconds.
pub const TIMEOUT_SECS: u64 = 30;

/// The answer to a challenge-response request, from the HTTP status and
/// body: a success status (2xx) gives the body, any other status is an
/// `HttpError` with both.
pub fn chares_response(status: u16, body: String) -> (r: Result<String, RatsdError>)
    ensures
        200 <= status <= 299 ==> (r matches Ok(b) && b@ == body@),
        !(200 <= status <= 299) ==> (r matches Err(RatsdError::HttpError { status: s, body: b }) && s
            == status && b@ == body@),
{
    if 200 <= status && status <= 299 {
        Ok(body)
    } else {
        Err(RatsdError::HttpError { status, body })
    }
}

/// What `Url::parse(base)` followed by `join(path)` gives, as the text of
/// the joined URL; `None` where either reports an error.
pub uninterp spec fn url_joined(base: Seq<char>, path: Seq<char>) -> Option<Seq<char>>;

/// `Url::parse` then `Url::join`, the result as text: the outcome is
/// [`url_joined`]; the error comes back as its text.
#[verifier::external_body]
fn url_join(base: &str, path: &str) -> (r: Result<String, String>)
    ensures
        r is Ok <==> url_joined(base@, path@) is Some,
        r matches Ok(u) ==> url_joined(base@, path@) == Some(u@),
{
    url::Url::parse(base).and_then(|u| u.join(path)).map(|u| u.to_string()).map_err(
        |e| e.to_string(),
    )
}

/// The URL-safe base64 text (no padding) of `bytes`.
pub uninterp spec fn base64_url_nopad_encoding(bytes: Seq<u8>) -> Seq<char>;

/// `general_purpose::URL_SAFE_NO_PAD.encode`: the text is
/// [`base64_url_nopad_encoding`] of the bytes, and decoding it with the same
/// engine gives the bytes back.
#[verifier::external_body]
fn base64_url_nopad_encode(bytes: &[u8]) -> (r: String)
    ensures
        r@ == base64_url_nopad_encoding(bytes@),
        base64_url_nopad_decoding(r@) == Some(bytes@),
{
    base64::engine::general_purpose::URL_SAFE_NO_PAD.encode(bytes)
}

/// A challenge-response request: the endpoint to post to, and the nonce as
/// it travels in the JSON body (`{"nonce": ...}`).
pub struct ChallengeRequest {
    pub url: String,
    pub nonce: String,
}

/// The challenge-response request for `nonce` to the daemon at `base_url`:
/// the endpoint is [`CHARES_PATH`] resolved against `base_url`, and the
/// nonce travels as URL-safe unpadded base64, from which it decodes back.
pub fn chares_request(base_url: &str, nonce: &[u8]) -> (r: Result<ChallengeRequest, RatsdError>)
    ensures
        match url_joined(base_url@, CHARES_PATH@) {
            None => r matches Err(RatsdError::ResponseParse(m)) && starts_with(
                m@,
                "invalid RATSD URL: "@,
            ),
            Some(u) => r matches Ok(req) && req.url@ == u && req.nonce@
                == base64_url_nopad_encoding(nonce@) && base64_url_nopad_decoding(req.nonce@)
                == Some(nonce@),
        },
{
    let nonce_b64 = base64_url_nopad_encode(nonce);
    match url_join(base_url, CHARES_PATH) {
        Ok(url) => Ok(ChallengeRequest { url, nonce: nonce_b64 }),
        Err(e) => {
            let m = concat3("invalid RATSD URL: ", e.as_str(), "");
            proof {
                reveal_strlit("invalid RATSD URL: ");
                reveal_strlit("");
                assert(m@.subrange(0, 19) =~= "invalid RATSD URL: "@);
            }
            Err(RatsdError::ResponseParse(m))
        },
    }
}

/// `reqwest::Error`'s `Display`: its description of a failed request.
#[verifier::external_body]
fn request_error_text(e: &reqwest::Error) -> String {
    e.to_string()
}

/// The text of a RATSD error; `None` for a failed request, whose text ends
/// with the HTTP client's own description of the failure.
pub open spec fn ratsd_error_text(e: RatsdError) -> Option<Seq<char>> {
    match e {
        RatsdError::RequestFailed(_) => None,
        RatsdError::HttpError { status, body } => Some(
            "RATSD returned HTTP "@ + decimal(status as nat) + ": "@ + body@,
        ),
        RatsdError::ResponseParse(m) => Some("failed to parse RATSD response: "@ + m@),
        RatsdError::Custom(m) => Some(m@),
    }
}

impl RatsdError {
    /// The human-readable text of the error.
    pub fn to_string(&self) -> (r: String)
        ensures
            ratsd_error_text(*self) matches Some(t) ==> r@ == t,
            self is RequestFailed ==> r@.len() >= 22 && r@.subrange(0, 22)
                == "RATSD request failed: "@,
    {
        match self {
            RatsdError::RequestFailed(e) => {
                let r = concat2("RATSD request failed: ", request_error_text(e).as_str());
                proof {
                    reveal_strlit("RATSD request failed: ");
                }
                assert(r@.subrange(0, 22) =~= "RATSD request failed: "@);
                r
            },
            RatsdError::HttpError { status, body } => {
                let mut s = owned("RATSD returned HTTP ");
                s.append(u16_to_decimal(*status).as_str());
                s.append(": ");
                s.append(body.as_str());
                s
            },
            RatsdError::ResponseParse(m) => concat2("failed to parse RATSD response: ", m.as_str()),
            RatsdError::Custom(m) => m.clone(),
        }
    }
}

} // verus!
