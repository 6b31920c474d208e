//! Extraction of credentials from request headers.

use vstd::prelude::*;
use vstd::string::StrSliceExecFns;
use vstd::string::StringExecFns;
use vstd::utf8::{decode_utf8, valid_utf8};
use http::header::HeaderValue;
use http::HeaderMap;
use crate::request::{authorization_name, cookie_name, header_fields, header_str, header_text};
use crate::text::{chars_of, find_in, range_equals, spec_find, spec_trim, starts_with, trim_range};

verus! {

/// What `base64`'s `STANDARD` engine decodes `input` to, and `None` where it
/// reports an error.
pub uninterp spec fn base64_standard_decoding(input: Seq<char>) -> Option<Seq<u8>>;

/// `Engine::decode` of `base64::engine::general_purpose::STANDARD`: the
/// decoded bytes, a function of the input alone; `None` stands for its error.
#[verifier::external_body]
pub(crate) fn base64_decode(input: &str) -> (bytes: Option<Vec<u8>>)
    ensures
        match bytes {
            Some(b) => base64_standard_decoding(input@) == Some(b@),
            None => base64_standard_decoding(input@) is None,
        },
{
    base64::Engine::decode(&base64::engine::general_purpose::STANDARD, input).ok()
}

/// `String::from_utf8`: the text that the bytes encode when they are valid
/// UTF-8; `None` stands for its error, which it returns on any other input.
#[verifier::external_body]
pub(crate) fn string_from_utf8(bytes: Vec<u8>) -> (text: Option<String>)
    ensures
        match text {
            Some(s) => valid_utf8(bytes@) && s@ == decode_utf8(bytes@),
            None => !valid_utf8(bytes@),
        },
{
    String::from_utf8(bytes).ok()
}

/// The view of an optional string slice.
pub open spec fn text_of(text: Option<&str>) -> Option<Seq<char>> {
    match text {
        Some(s) => Some(s@),
        None => None,
    }
}

/// The view of an optional pair of strings.
pub open spec fn pair_of(pair: Option<(String, String)>) -> Option<(Seq<char>, Seq<char>)> {
    match pair {
        Some((a, b)) => Some((a@, b@)),
        None => None,
    }
}

/// The token of an `Authorization` value of the form `Bearer <token>`: what
/// follows the prefix, trimmed. `None` when the prefix is not there.
pub open spec fn bearer_token(value: Seq<char>) -> Option<Seq<char>> {
    if "Bearer "@.is_prefix_of(value) {
        Some(spec_trim(value.skip("Bearer "@.len() as int)))
    } else {
        None
    }
}

/// `text` cut at its first `c`: what stands before it and what stands after.
/// `None` when `c` does not occur.
pub open spec fn split_once(text: Seq<char>, c: char) -> Option<(Seq<char>, Seq<char>)> {
    let at = spec_find(text, c);
    if at == text.len() {
        None
    } else {
        Some((text.take(at), text.skip(at + 1)))
    }
}

/// The user name and password of an `Authorization` value of the form
/// `Basic <base64(user:password)>`. `None` when the prefix is missing, the
/// rest is not base64, the decoded bytes are not UTF-8, or they hold no colon.
pub open spec fn basic_credentials(value: Seq<char>) -> Option<(Seq<char>, Seq<char>)> {
    if "Basic "@.is_prefix_of(value) {
        match base64_standard_decoding(spec_trim(value.skip("Basic "@.len() as int))) {
            Some(bytes) => if valid_utf8(bytes) {
                split_once(decode_utf8(bytes), ':')
            } else {
                None
            },
            None => None,
        }
    } else {
        None
    }
}

/// The value of the cookie `name` in a `Cookie` header value.
///
/// The header is read pair by pair, pairs being separated by `;`. A pair is
/// `key=value`, both trimmed; the first pair whose key is `name` gives the
/// value. A pair without `=` ends the search with `None`.
pub open spec fn cookie_value(header: Seq<char>, name: Seq<char>) -> Option<Seq<char>>
    decreases header.len(),
{
    let end = spec_find(header, ';');
    let pair = header.take(end);
    let eq = spec_find(pair, '=');
    if eq == pair.len() {
        None
    } else if spec_trim(pair.take(eq)) == name {
        Some(spec_trim(pair.skip(eq + 1)))
    } else if 0 <= end < header.len() {
        cookie_value(header.skip(end + 1), name)
    } else {
        None
    }
}

/// Reads the token out of an `Authorization` header value.
pub fn parse_bearer<'a>(value: &'a str) -> (token: Option<&'a str>)
    ensures
        text_of(token) == bearer_token(value@),
{
    let chars = chars_of(value);
    let prefix = chars_of("Bearer ");
    if !starts_with(&chars, &prefix) {
        return None;
    }
    let (from, to) = trim_range(&chars, prefix.len(), chars.len());
    proof {
        assert(chars@.subrange(prefix@.len() as int, chars@.len() as int) =~= value@.skip(
            "Bearer "@.len() as int,
        ));
    }
    Some(value.substring_char(from, to))
}

/// Reads user name and password out of an `Authorization` header value.
pub fn parse_basic(value: &str) -> (credentials: Option<(String, String)>)
    ensures
        pair_of(credentials) == basic_credentials(value@),
{
    let chars = chars_of(value);
    let prefix = chars_of("Basic ");
    if !starts_with(&chars, &prefix) {
        return None;
    }
    let (from, to) = trim_range(&chars, prefix.len(), chars.len());
    proof {
        assert(chars@.subrange(prefix@.len() as int, chars@.len() as int) =~= value@.skip(
            "Basic "@.len() as int,
        ));
    }
    let encoded = value.substring_char(from, to);
    let decoded = match base64_decode(encoded) {
        Some(bytes) => bytes,
        None => {
            return None;
        },
    };
    let ghost bytes = decoded@;
    let text = match string_from_utf8(decoded) {
        Some(text) => text,
        None => {
            return None;
        },
    };
    let letters = chars_of(text.as_str());
    let colon = find_in(&letters, ':', 0, letters.len());
    proof {
        assert(letters@.subrange(0, letters@.len() as int) =~= letters@);
    }
    if colon == letters.len() {
        return None;
    }
    let user = String::from_str(text.as_str().substring_char(0, colon));
    let password = String::from_str(text.as_str().substring_char(colon + 1, letters.len()));
    proof {
        assert(user@ =~= text@.take(colon as int));
        assert(password@ =~= text@.skip(colon + 1));
    }
    Some((user, password))
}

/// Looks the cookie `name` up in a `Cookie` header value.
pub fn parse_cookie<'a>(header: &'a str, name: &str) -> (value: Option<&'a str>)
    ensures
        text_of(value) == cookie_value(header@, name@),
{
    let chars = chars_of(header);
    let wanted = chars_of(name);
    let total = chars.len();
    let mut start: usize = 0;
    proof {
        assert(chars@.subrange(0, total as int) =~= chars@);
    }
    loop
        invariant
            0 <= start <= total,
            total == chars@.len(),
            chars@ == header@,
            wanted@ == name@,
            cookie_value(header@, name@) == cookie_value(
                chars@.subrange(start as int, total as int),
                name@,
            ),
        decreases total - start,
    {
        let ghost rest = chars@.subrange(start as int, total as int);
        let end = find_in(&chars, ';', start, total);
        let eq = find_in(&chars, '=', start, end);
        proof {
            assert(rest.take(end - start) =~= chars@.subrange(start as int, end as int));
        }
        if eq == end {
            return None;
        }
        let (key_from, key_to) = trim_range(&chars, start, eq);
        proof {
            assert(rest.take(end - start).take(eq - start) =~= chars@.subrange(
                start as int,
                eq as int,
            ));
            assert(rest.take(end - start).skip(eq - start + 1) =~= chars@.subrange(
                eq as int + 1,
                end as int,
            ));
        }
        if range_equals(&chars, key_from, key_to, &wanted) {
            let (from, to) = trim_range(&chars, eq + 1, end);
            return Some(header.substring_char(from, to));
        }
        if end >= total {
            return None;
        }
        proof {
            assert(rest.skip(end - start + 1) =~= chars@.subrange(end as int + 1, total as int));
        }
        start = end + 1;
    }
}

/// The token of the request's `Authorization: Bearer <token>` header.
///
/// `None` when the header is missing, is not visible ASCII, or does not begin
/// with `Bearer `.
pub fn extract_bearer_token<'a>(headers: &'a HeaderMap<HeaderValue>) -> (token: Option<&'a str>)
    ensures
        text_of(token) == match header_text(header_fields(*headers), "authorization"@) {
            Some(value) => bearer_token(value),
            None => None,
        },
{
    let name = authorization_name();
    match header_str(headers, &name) {
        Some(value) => parse_bearer(value),
        None => None,
    }
}

/// The user name and password of the request's `Authorization: Basic ...`
/// header.
pub fn extract_basic_credentials(headers: &HeaderMap<HeaderValue>) -> (credentials: Option<
    (String, String),
>)
    ensures
        pair_of(credentials) == match header_text(header_fields(*headers), "authorization"@) {
            Some(value) => basic_credentials(value),
            None => None,
        },
{
    let name = authorization_name();
    match header_str(headers, &name) {
        Some(value) => parse_basic(value),
        None => None,
    }
}

/// The value of the cookie `name` in the request's `Cookie` header.
pub fn extract_cookie<'a>(headers: &'a HeaderMap<HeaderValue>, name: &str) -> (value: Option<
    &'a str,
>)
    ensures
        text_of(value) == match header_text(header_fields(*headers), "cookie"@) {
            Some(header) => cookie_value(header, name@),
            None => None,
        },
{
    let field = cookie_name();
    match header_str(headers, &field) {
        Some(header) => parse_cookie(header, name),
        None => None,
    }
}

} // verus!
