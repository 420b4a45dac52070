//! Request URLs: a fixed base, an endpoint path and an optional query.
use vstd::prelude::*;
use vstd::utf8::encode_utf8;
use crate::client::net::parse_url;
use crate::error::ValidationError;

verus! {

/// Every endpoint hangs below this base.
pub const BASE_URL: &'static str = "https://www.ruddr.io/api/workspace/";

/// The text of an optional string argument.
pub open spec fn text_of(s: Option<&str>) -> Option<Seq<char>> {
    match s {
        Some(t) => Some(t@),
        None => None,
    }
}

/// `<base><endpoint>`, followed by `?<query>` when a non-empty query is given.
pub open spec fn url_text(endpoint: Seq<char>, query: Option<Seq<char>>) -> Seq<char> {
    match query {
        Some(q) => if q.len() > 0 {
            BASE_URL@ + endpoint + "?"@ + q
        } else {
            BASE_URL@ + endpoint
        },
        None => BASE_URL@ + endpoint,
    }
}

/// Builds the full URL of a request; an empty endpoint is refused.
pub fn request_url(endpoint: &str, params: Option<&str>) -> (r: Result<String, ValidationError>)
    ensures
        endpoint@.len() == 0 ==> r == Err::<String, ValidationError>(ValidationError::EmptyEndpoint),
        endpoint@.len() > 0 ==> (r matches Ok(u) && u@ == url_text(endpoint@, text_of(params))),
{
    if endpoint.is_empty() {
        return Err(ValidationError::EmptyEndpoint);
    }
    let mut url = String::from_str(BASE_URL);
    url.append(endpoint);
    match params {
        Some(query) => {
            if !query.is_empty() {
                url.append("?");
                url.append(query);
            }
        },
        None => {},
    }
    Ok(url)
}

/// Whether a URL is short enough for every offset of its parsed form to
/// fit in `u32` (percent-encoding at most triples each byte).
pub open spec fn url_fits(text: Seq<char>) -> bool {
    3 * encode_utf8(text).len() <= u32::MAX
}

/// One fully formed GET request.
pub struct Request {
    url: reqwest::Url,
    text: String,
}

impl View for Request {
    type V = Seq<char>;

    closed spec fn view(&self) -> Seq<char> {
        self.text@
    }
}

impl Request {
    /// Builds the request URL with [`request_url`] and parses it. Parsing
    /// fails only on a URL too long for the parser's offsets.
    pub fn new(endpoint: &str, params: Option<&str>) -> (r: Result<Request, ValidationError>)
        ensures
            endpoint@.len() == 0 <==> r == Err::<Request, ValidationError>(ValidationError::EmptyEndpoint),
            endpoint@.len() > 0 && url_fits(url_text(endpoint@, text_of(params))) ==> r is Ok,
            r matches Ok(req) ==> req@ == url_text(endpoint@, text_of(params)),
            r matches Err(ValidationError::Url(u)) ==> endpoint@.len() > 0 && u@ == url_text(endpoint@, text_of(params))
                && !url_fits(u@),
            r matches Err(e) ==> e is EmptyEndpoint || e is Url,
    {
        let text = match request_url(endpoint, params) {
            Ok(t) => t,
            Err(e) => return Err(e),
        };
        proof {
            let t = url_text(endpoint@, text_of(params));
            assert(t.subrange(0, BASE_URL@.len() as int) =~= BASE_URL@);
            assert(BASE_URL@.is_prefix_of(t));
        }
        match parse_url(text.as_str()) {
            Some(url) => Ok(Request { url, text }),
            None => Err(ValidationError::Url(text)),
        }
    }

    /// The parsed URL, for the transport.
    pub fn url(&self) -> &reqwest::Url {
        &self.url
    }

    /// The URL as built.
    pub fn as_str(&self) -> (r: &str)
        ensures
            r@ == self@,
    {
        self.text.as_str()
    }
}

} // verus!
