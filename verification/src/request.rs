//! The parts of an HTTP request that authentication reads, as the `http`
//! crate holds them.

use vstd::prelude::*;
use http::header::{HeaderName, HeaderValue};
use http::request::Parts;
use http::HeaderMap;

verus! {

/// `http::HeaderMap`: the header fields of a message. Its contents are
/// reached through [`header_get`].
#[verifier::external_type_specification]
#[verifier::external_body]
#[verifier::reject_recursive_types(T)]
pub struct ExHeaderMap<T>(HeaderMap<T>);

/// `http::HeaderValue`: the bytes of one header field.
#[verifier::external_type_specification]
#[verifier::external_body]
pub struct ExHeaderValue(HeaderValue);

/// `http::header::HeaderName`: a header field's name, held in lower case.
#[verifier::external_type_specification]
#[verifier::external_body]
pub struct ExHeaderName(HeaderName);

/// `http::request::Parts`: the head of a request.
#[verifier::external_type_specification]
#[verifier::external_body]
pub struct ExParts(Parts);

/// What a header map holds: under each lower-case name that occurs in it,
/// the bytes of the first value stored under that name.
pub uninterp spec fn header_fields(headers: HeaderMap<HeaderValue>) -> Map<Seq<char>, Seq<u8>>;

/// What the header map of a request head holds, in the same form.
pub uninterp spec fn request_fields(parts: Parts) -> Map<Seq<char>, Seq<u8>>;

/// The lower-case text of a header name.
pub uninterp spec fn header_name_text(name: HeaderName) -> Seq<char>;

/// The bytes of a header value.
pub uninterp spec fn header_value_bytes(value: HeaderValue) -> Seq<u8>;

/// The bytes that a header value may hold to be read as text: printable ASCII
/// and the tab.
pub open spec fn is_visible_ascii(b: u8) -> bool {
    (32 <= b < 127) || b == 9
}

/// The text of a header value made of visible ASCII only; `None` for any
/// other value.
pub open spec fn visible_text(bytes: Seq<u8>) -> Option<Seq<char>> {
    if forall|i: int| 0 <= i < bytes.len() ==> is_visible_ascii(#[trigger] bytes[i]) {
        Some(Seq::new(bytes.len(), |i: int| bytes[i] as char))
    } else {
        None
    }
}

/// The text of the first value of the header `name` among `fields`, when
/// the header is there and the value is visible ASCII.
pub open spec fn header_text(fields: Map<Seq<char>, Seq<u8>>, name: Seq<char>) -> Option<
    Seq<char>,
> {
    if fields.dom().contains(name) {
        visible_text(fields[name])
    } else {
        None
    }
}

/// Reads the public field `headers` of `http::request::Parts`.
#[verifier::external_body]
pub(crate) fn parts_headers(parts: &Parts) -> (headers: &HeaderMap<HeaderValue>)
    ensures
        header_fields(*headers) == request_fields(*parts),
{
    &parts.headers
}

/// `HeaderMap::get` with a `&HeaderName` key: the first value stored under
/// that name, or `None` when the map has no such field. Names compare by
/// their lower-case text.
#[verifier::external_body]
pub(crate) fn header_get<'a>(headers: &'a HeaderMap<HeaderValue>, name: &HeaderName) -> (value:
    Option<&'a HeaderValue>)
    ensures
        match value {
            Some(v) => header_fields(*headers).dom().contains(header_name_text(*name))
                && header_fields(*headers)[header_name_text(*name)] == header_value_bytes(*v),
            None => !header_fields(*headers).dom().contains(header_name_text(*name)),
        },
{
    headers.get(name)
}

/// `HeaderValue::to_str`: the value as text when every byte is visible ASCII
/// (32 to 126, or the tab), each byte then being one character; an error,
/// here `None`, otherwise.
#[verifier::external_body]
pub(crate) fn header_value_str<'a>(value: &'a HeaderValue) -> (text: Option<&'a str>)
    ensures
        match text {
            Some(s) => visible_text(header_value_bytes(*value)) == Some(s@),
            None => visible_text(header_value_bytes(*value)) is None,
        },
{
    value.to_str().ok()
}

/// The constant `http::header::AUTHORIZATION`, the name `authorization`.
#[verifier::external_body]
pub(crate) fn authorization_name() -> (name: HeaderName)
    ensures
        header_name_text(name) == "authorization"@,
{
    http::header::AUTHORIZATION
}

/// The constant `http::header::COOKIE`, the name `cookie`.
#[verifier::external_body]
pub(crate) fn cookie_name() -> (name: HeaderName)
    ensures
        header_name_text(name) == "cookie"@,
{
    http::header::COOKIE
}

/// The text of the header `name` in `headers`, if it is there and readable.
pub fn header_str<'a>(headers: &'a HeaderMap<HeaderValue>, name: &HeaderName) -> (text: Option<
    &'a str,
>)
    ensures
        match text {
            Some(s) => header_text(header_fields(*headers), header_name_text(*name)) == Some(s@),
            None => header_text(header_fields(*headers), header_name_text(*name)) is None,
        },
{
    match header_get(headers, name) {
        Some(value) => header_value_str(value),
        None => None,
    }
}

} // verus!
