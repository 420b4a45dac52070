//! The reusable client: credential resolution, default headers, and the
//! status-and-decode step that turns a response into a typed value.
use vstd::prelude::*;
use vstd::utf8::encode_utf8;
use crate::client::net::{
    accept_and_authorization, build_http_client, builder_headers, client_default_headers, default_header_map, header_text_ok,
    value_bytes, value_sensitive,
};
use crate::client::request::text_of;
use crate::error::{ApiError, ConfigError, TransportError};

verus! {

/// The credential in force: an explicit token always wins over the
/// fallback value; with neither there is none.
pub open spec fn credential_of(token: Option<Seq<char>>, fallback: Option<Seq<char>>) -> Option<Seq<char>> {
    match token {
        Some(t) => Some(t),
        None => fallback,
    }
}

/// The authorization header value for a credential.
pub open spec fn bearer_text(credential: Seq<char>) -> Seq<char> {
    "Bearer "@ + credential
}

/// The default headers of a client built for a credential: Accept asks for
/// JSON, Authorization carries the bearer value and is marked sensitive.
pub open spec fn expected_headers(credential: Seq<char>) -> Map<Seq<char>, (Seq<u8>, bool)> {
    accept_and_authorization(
        (encode_utf8("application/json"@), false),
        (encode_utf8(bearer_text(credential)), true),
    )
}

/// Picks the credential: the explicit token verbatim (even when empty),
/// else the fallback value, else a configuration error.
pub fn resolve_credential(token: Option<&str>, fallback: Option<&str>) -> (r: Result<String, ConfigError>)
    ensures
        credential_of(text_of(token), text_of(fallback)) matches Some(c)
            ==> (r matches Ok(s) && s@ == c),
        credential_of(text_of(token), text_of(fallback)) is None
            ==> r == Err::<String, ConfigError>(ConfigError::MissingCredential),
{
    match token {
        Some(t) => Ok(String::from_str(t)),
        None => match fallback {
            Some(f) => Ok(String::from_str(f)),
            None => Err(ConfigError::MissingCredential),
        },
    }
}

/// `Bearer <credential>`.
pub fn bearer_value(credential: &str) -> (r: String)
    ensures
        r@ == bearer_text(credential@),
{
    let mut r = String::from_str("Bearer ");
    r.append(credential);
    r
}

/// The authorization header for a credential, marked sensitive so that it
/// stays out of debug output. Fails exactly when the credential holds a
/// character that a header value cannot carry.
pub fn authorization_header(credential: &str) -> (r: Result<reqwest::header::HeaderValue, ConfigError>)
    ensures
        r is Ok <==> header_text_ok(bearer_text(credential@)),
        r matches Ok(v) ==> value_bytes(v) == encode_utf8(bearer_text(credential@)) && value_sensitive(v),
        r matches Err(e) ==> e == ConfigError::InvalidHeaderValue,
{
    let text = bearer_value(credential);
    match reqwest::header::HeaderValue::from_str(text.as_str()) {
        Ok(mut value) => {
            value.set_sensitive(true);
            Ok(value)
        },
        Err(_) => Err(ConfigError::InvalidHeaderValue),
    }
}

/// An HTTP client carrying the two default headers: JSON content
/// negotiation and the bearer authorization. It holds no per-request state.
pub struct ApiClient {
    http: reqwest::Client,
}

impl ApiClient {
    /// The default headers that the client sends with every request.
    pub closed spec fn default_headers(&self) -> Map<Seq<char>, (Seq<u8>, bool)> {
        client_default_headers(self.http)
    }

    /// Builds a client from an explicit token or, failing that, a fallback
    /// value (the caller reads it from wherever it is configured).
    pub fn new(token: Option<&str>, fallback: Option<&str>) -> (r: Result<ApiClient, ApiError>)
        ensures
            ({
                let cred = credential_of(text_of(token), text_of(fallback));
                &&& cred is None <==> r == Err::<ApiClient, ApiError>(ApiError::Config(ConfigError::MissingCredential))
                &&& (cred matches Some(c) && !header_text_ok(bearer_text(c)))
                    <==> r == Err::<ApiClient, ApiError>(ApiError::Config(ConfigError::InvalidHeaderValue))
                &&& r matches Ok(client) ==> (cred matches Some(c) && client.default_headers() == expected_headers(c))
                &&& r matches Err(e) ==> e is Config
            }),
    {
        let credential = match resolve_credential(token, fallback) {
            Ok(c) => c,
            Err(e) => return Err(ApiError::Config(e)),
        };
        let authorization = match authorization_header(credential.as_str()) {
            Ok(v) => v,
            Err(e) => return Err(ApiError::Config(e)),
        };
        proof {
            reveal_strlit("application/json");
        }
        let accept = reqwest::header::HeaderValue::from_static("application/json");
        let headers = default_header_map(accept, authorization);
        let ghost expected = expected_headers(credential@);
        proof {
            assert(builder_headers().union_prefer_right(crate::client::net::map_fields(headers)) =~= expected);
        }
        match build_http_client(headers) {
            Ok(http) => Ok(ApiClient { http }),
            Err(m) => Err(ApiError::Config(ConfigError::ClientBuild(m))),
        }
    }

    /// The configured HTTP client, for issuing requests.
    pub fn http(&self) -> &reqwest::Client {
        &self.http
    }
}

/// A target shape that a response body can be decoded into.
pub trait Decode: Sized {
    /// Decodes a whole body; the error is a description of the mismatch.
    fn decode(body: &[u8]) -> Result<Self, String>;
}

/// A status in 200..=299.
pub open spec fn is_success(status: u16) -> bool {
    200 <= status && status <= 299
}

/// Whether a response with this status carries a body worth decoding.
pub fn is_success_status(status: u16) -> (r: bool)
    ensures
        r == is_success(status),
{
    200 <= status && status <= 299
}

/// The result of a read from what the decoder made of a success body:
/// its value, or its description as a decode error.
pub open spec fn decoded<T>(d: Result<T, String>) -> Result<T, ApiError> {
    match d {
        Ok(v) => Ok(v),
        Err(m) => Err(ApiError::Decode(m)),
    }
}

/// Maps the decoder's outcome for a success body to the result of a read.
pub fn finish_decode<T>(d: Result<T, String>) -> (r: Result<T, ApiError>)
    ensures
        r == decoded(d),
{
    match d {
        Ok(value) => Ok(value),
        Err(m) => Err(ApiError::Decode(m)),
    }
}

/// Turns a received response into the requested value. A status outside
/// 200..=299 is a transport error and the body is not looked at; a success
/// body that does not decode is a decode error.
pub fn read_response<T: Decode>(status: u16, body: &[u8]) -> (r: Result<T, ApiError>)
    ensures
        !is_success(status) ==> r == Err::<T, ApiError>(ApiError::Transport(TransportError::Status(status))),
        is_success(status) ==> exists|d: Result<T, String>| r == decoded(d),
{
    if !is_success_status(status) {
        return Err(ApiError::Transport(TransportError::Status(status)));
    }
    finish_decode(T::decode(body))
}

} // verus!
