//! Declarations of the HTTP stack's types and the calls made into it.
use vstd::prelude::*;
use vstd::utf8::encode_utf8;
use crate::client::request::BASE_URL;

verus! {

#[verifier::external_type_specification]
#[verifier::external_body]
pub struct ExUrl(reqwest::Url);

#[verifier::external_type_specification]
#[verifier::external_body]
pub struct ExHeaderValue(reqwest::header::HeaderValue);

#[verifier::external_type_specification]
#[verifier::external_body]
pub struct ExInvalidHeaderValue(reqwest::header::InvalidHeaderValue);

#[verifier::external_type_specification]
#[verifier::external_body]
#[verifier::reject_recursive_types(T)]
pub struct ExHeaderMap<T>(reqwest::header::HeaderMap<T>);

#[verifier::external_type_specification]
#[verifier::external_body]
pub struct ExHttpClient(reqwest::Client);

/// The bytes that a header value holds.
pub uninterp spec fn value_bytes(v: reqwest::header::HeaderValue) -> Seq<u8>;

/// Whether a header value is marked sensitive (kept out of debug output).
pub uninterp spec fn value_sensitive(v: reqwest::header::HeaderValue) -> bool;

/// The headers that a header map holds, by lowercase name: the bytes of
/// each value and its sensitive flag.
pub uninterp spec fn map_fields(m: reqwest::header::HeaderMap) -> Map<Seq<char>, (Seq<u8>, bool)>;

/// The default headers that a client sends with every request, in the same
/// form as `map_fields`.
pub uninterp spec fn client_default_headers(c: reqwest::Client) -> Map<Seq<char>, (Seq<u8>, bool)>;

/// A header value as `map_fields` records it.
pub open spec fn fields_of(v: reqwest::header::HeaderValue) -> (Seq<u8>, bool) {
    (value_bytes(v), value_sensitive(v))
}

/// Exactly two headers: Accept and Authorization.
pub open spec fn accept_and_authorization(accept: (Seq<u8>, bool), authorization: (Seq<u8>, bool)) -> Map<Seq<char>, (Seq<u8>, bool)> {
    Map::empty().insert("accept"@, accept).insert("authorization"@, authorization)
}

/// The Accept header that a client builder starts out with: `*/*`.
pub open spec fn builder_headers() -> Map<Seq<char>, (Seq<u8>, bool)> {
    Map::empty().insert("accept"@, (seq![42u8, 47u8, 42u8], false))
}

/// A character that may stand in a header value: visible ASCII, space and
/// tab, or any character beyond ASCII (whose UTF-8 bytes are all >= 0x80).
pub open spec fn header_char_ok(c: char) -> bool {
    (' ' <= c && c != '\x7f') || c == '\t'
}

pub open spec fn header_text_ok(s: Seq<char>) -> bool {
    forall|i: int| 0 <= i < s.len() ==> header_char_ok(#[trigger] s[i])
}

/// Visible ASCII, space and tab: what a header value built from a
/// static string may hold.
pub open spec fn static_header_text_ok(s: Seq<char>) -> bool {
    forall|i: int| 0 <= i < s.len() ==> ((' ' <= #[trigger] s[i] && s[i] < '\x7f') || s[i] == '\t')
}

/// http's `HeaderValue::from_str` rejects a string exactly when one of its
/// bytes is a control byte other than tab, or DEL; otherwise the value holds
/// a copy of the string's bytes and is not marked sensitive.
pub assume_specification[ reqwest::header::HeaderValue::from_str ](src: &str) -> (r: Result<
    reqwest::header::HeaderValue,
    reqwest::header::InvalidHeaderValue,
>)
    ensures
        r is Ok <==> header_text_ok(src@),
        r matches Ok(v) ==> value_bytes(v) == encode_utf8(src@) && !value_sensitive(v),
;

/// http's `HeaderValue::from_static` panics unless every byte is visible
/// ASCII, space or tab; the value holds the string's bytes and is not marked
/// sensitive.
pub assume_specification[ reqwest::header::HeaderValue::from_static ](src: &'static str) -> (r: reqwest::header::HeaderValue)
    requires
        static_header_text_ok(src@),
    ensures
        value_bytes(r) == encode_utf8(src@),
        !value_sensitive(r),
;

/// http's `HeaderValue::set_sensitive` sets the flag that keeps the value
/// out of debug output and leaves the bytes alone.
pub assume_specification[ reqwest::header::HeaderValue::set_sensitive ](
    v: &mut reqwest::header::HeaderValue,
    val: bool,
)
    ensures
        value_bytes(*final(v)) == value_bytes(*old(v)),
        value_sensitive(*final(v)) == val,
;

/// Relies on http's `HeaderMap::new` and `HeaderMap::insert`: a map holding
/// `accept` under the Accept name and `authorization` under the
/// Authorization name, both unchanged. Two entries stay far below the map's
/// capacity, so `insert` cannot panic.
#[verifier::external_body]
pub(crate) fn default_header_map(
    accept: reqwest::header::HeaderValue,
    authorization: reqwest::header::HeaderValue,
) -> (r: reqwest::header::HeaderMap)
    ensures
        map_fields(r) == accept_and_authorization(fields_of(accept), fields_of(authorization)),
{
    let mut headers = reqwest::header::HeaderMap::new();
    headers.insert(reqwest::header::ACCEPT, accept);
    headers.insert(reqwest::header::AUTHORIZATION, authorization);
    headers
}

/// Relies on reqwest's `Client::builder`, `ClientBuilder::default_headers`
/// and `ClientBuilder::build`; the build error is rendered as text. Whether
/// the build succeeds depends on the machine (proxy settings in the
/// environment, the TLS backend), so success is not promised. A built client
/// sends the builder's initial Accept `*/*`, overridden by each given header
/// (values are cloned, flags included).
#[verifier::external_body]
pub(crate) fn build_http_client(headers: reqwest::header::HeaderMap) -> (r: Result<reqwest::Client, String>)
    ensures
        r matches Ok(c) ==> client_default_headers(c) == builder_headers().union_prefer_right(map_fields(headers)),
{
    reqwest::Client::builder().default_headers(headers).build().map_err(|e| e.to_string())
}

/// Relies on url's `Url::parse` (re-exported by reqwest); the parse error is
/// dropped, the caller reports its own. Below the fixed scheme and host of
/// the base, parsing fails only when an offset of the serialization (at most
/// three bytes for each input byte, after percent-encoding) overflows `u32`.
#[verifier::external_body]
pub(crate) fn parse_url(text: &str) -> (r: Option<reqwest::Url>)
    ensures
        BASE_URL@.is_prefix_of(text@) && 3 * encode_utf8(text@).len() <= u32::MAX ==> r is Some,
{
    reqwest::Url::parse(text).ok()
}

} // verus!
