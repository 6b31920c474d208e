use authkestra::callback::bearer_credentials;
use authkestra::request::header_str;
use authkestra::text::{decimal, decimal_nat, is_whitespace, str_equal, trim};
use authkestra::utils::{
    extract_basic_credentials, extract_bearer_token, extract_cookie, parse_basic, parse_bearer,
    parse_cookie,
};
use base64::Engine;
use http::header::{HeaderName, HeaderValue, AUTHORIZATION, COOKIE};
use http::HeaderMap;

fn headers(pairs: &[(HeaderName, &str)]) -> HeaderMap {
    let mut map = HeaderMap::new();
    for (name, value) in pairs {
        map.append(name.clone(), HeaderValue::from_str(value).unwrap());
    }
    map
}

fn encode(text: &str) -> String {
    base64::engine::general_purpose::STANDARD.encode(text)
}

#[test]
fn bearer_token_is_what_follows_the_prefix_trimmed() {
    let map = headers(&[(AUTHORIZATION, "Bearer abc.def.ghi")]);
    assert_eq!(extract_bearer_token(&map), Some("abc.def.ghi"));
    let map = headers(&[(AUTHORIZATION, "Bearer   spaced \t")]);
    assert_eq!(extract_bearer_token(&map), Some("spaced"));
    let map = headers(&[(AUTHORIZATION, "Bearer ")]);
    assert_eq!(extract_bearer_token(&map), Some(""));
}

#[test]
fn bearer_token_needs_the_exact_prefix() {
    assert_eq!(extract_bearer_token(&HeaderMap::new()), None);
    assert_eq!(extract_bearer_token(&headers(&[(AUTHORIZATION, "bearer abc")])), None);
    assert_eq!(extract_bearer_token(&headers(&[(AUTHORIZATION, "Bearer")])), None);
    assert_eq!(extract_bearer_token(&headers(&[(AUTHORIZATION, "Basic abc")])), None);
    assert_eq!(extract_bearer_token(&headers(&[(AUTHORIZATION, " Bearer abc")])), None);
    assert_eq!(extract_bearer_token(&headers(&[(COOKIE, "Bearer abc")])), None);
}

#[test]
fn bearer_token_comes_from_the_first_authorization_header() {
    let map = headers(&[(AUTHORIZATION, "Bearer first"), (AUTHORIZATION, "Bearer second")]);
    assert_eq!(extract_bearer_token(&map), Some("first"));
}

#[test]
fn header_that_is_not_visible_ascii_is_not_read() {
    let mut map = HeaderMap::new();
    map.insert(AUTHORIZATION, HeaderValue::from_bytes(b"Bearer caf\xc3\xa9").unwrap());
    assert_eq!(extract_bearer_token(&map), None);
    assert_eq!(header_str(&map, &AUTHORIZATION), None);
    assert_eq!(extract_basic_credentials(&map), None);
}

#[test]
fn header_names_are_matched_without_regard_to_case() {
    let mut map = HeaderMap::new();
    map.insert(HeaderName::from_bytes(b"AUTHORIZATION").unwrap(), HeaderValue::from_static("Bearer t"));
    assert_eq!(extract_bearer_token(&map), Some("t"));
    assert_eq!(header_str(&map, &HeaderName::from_static("authorization")), Some("Bearer t"));
    assert_eq!(header_str(&map, &HeaderName::from_static("x-other")), None);
}

#[test]
fn basic_credentials_are_decoded_and_cut_at_the_first_colon() {
    let value = format!("Basic {}", encode("admin:password"));
    let map = headers(&[(AUTHORIZATION, value.as_str())]);
    assert_eq!(
        extract_basic_credentials(&map),
        Some(("admin".to_string(), "password".to_string()))
    );
    let value = format!("Basic {}", encode("user:pa:ss:word"));
    assert_eq!(parse_basic(&value), Some(("user".to_string(), "pa:ss:word".to_string())));
    let value = format!("Basic {}", encode(":"));
    assert_eq!(parse_basic(&value), Some((String::new(), String::new())));
    let value = format!("Basic {}", encode("ünï:ç∂"));
    assert_eq!(parse_basic(&value), Some(("ünï".to_string(), "ç∂".to_string())));
}

#[test]
fn basic_credentials_are_trimmed_before_decoding() {
    let value = format!("Basic   {}  ", encode("a:b"));
    assert_eq!(parse_basic(&value), Some(("a".to_string(), "b".to_string())));
}

#[test]
fn basic_credentials_reject_what_cannot_be_read() {
    assert_eq!(extract_basic_credentials(&HeaderMap::new()), None);
    assert_eq!(parse_basic("Bearer abc"), None);
    assert_eq!(parse_basic("basic YTpi"), None);
    assert_eq!(parse_basic("Basic not base64!"), None);
    assert_eq!(parse_basic(&format!("Basic {}", encode("no colon here"))), None);
    let not_utf8 = base64::engine::general_purpose::STANDARD.encode([0xffu8, 0x3a, 0xfe]);
    assert_eq!(parse_basic(&format!("Basic {}", not_utf8)), None);
    assert_eq!(parse_basic("Basic YTpi="), None);
}

#[test]
fn cookie_is_found_by_name() {
    let map = headers(&[(COOKIE, "a=1; session=xyz; b=2")]);
    assert_eq!(extract_cookie(&map, "session"), Some("xyz"));
    assert_eq!(extract_cookie(&map, "a"), Some("1"));
    assert_eq!(extract_cookie(&map, "b"), Some("2"));
    assert_eq!(extract_cookie(&map, "c"), None);
    assert_eq!(extract_cookie(&HeaderMap::new(), "a"), None);
}

#[test]
fn cookie_names_and_values_are_trimmed() {
    assert_eq!(parse_cookie("  a = 1 ;b=  two words ", "a"), Some("1"));
    assert_eq!(parse_cookie("  a = 1 ;b=  two words ", "b"), Some("two words"));
}

#[test]
fn cookie_value_keeps_later_equal_signs() {
    assert_eq!(parse_cookie("token=a=b=c; x=1", "token"), Some("a=b=c"));
    assert_eq!(parse_cookie("empty=; x=1", "empty"), Some(""));
}

#[test]
fn first_cookie_of_a_name_wins() {
    assert_eq!(parse_cookie("a=1; a=2", "a"), Some("1"));
}

#[test]
fn pair_without_equal_sign_ends_the_search() {
    assert_eq!(parse_cookie("flag; a=1", "a"), None);
    assert_eq!(parse_cookie("a=1; flag", "a"), Some("1"));
    assert_eq!(parse_cookie("b=2;", "a"), None);
    assert_eq!(parse_cookie("", "a"), None);
}

#[test]
fn bearer_parser_agrees_with_the_extractor() {
    assert_eq!(parse_bearer("Bearer  t "), Some("t"));
    assert_eq!(parse_bearer("Bearer\u{a0}t"), None);
    assert_eq!(parse_bearer("Bearer \u{2003}t\u{3000}"), Some("t"));
}

#[test]
fn resource_server_keeps_the_token_untrimmed() {
    assert_eq!(bearer_credentials(Some("Bearer  t ")), Ok(" t "));
    assert_eq!(bearer_credentials(Some("Bearer abc")), Ok("abc"));
    assert_eq!(bearer_credentials(None), Err("Missing Authorization header".to_string()));
    assert_eq!(
        bearer_credentials(Some("Basic abc")),
        Err("Invalid Authorization header".to_string())
    );
}

#[test]
fn trim_agrees_with_the_standard_library() {
    for text in ["", " ", "a", "  a b \t\n", "\u{85}x\u{2028}", "\u{200b}x", "\u{feff}x ", "x\u{1680}"] {
        assert_eq!(trim(text), text.trim());
    }
    for code in 0u32..0x3100 {
        if let Some(c) = char::from_u32(code) {
            assert_eq!(is_whitespace(c), c.is_whitespace(), "U+{:04X}", code);
        }
    }
}

#[test]
fn strings_compare_by_their_text() {
    assert!(str_equal("", ""));
    assert!(str_equal("abc", "abc"));
    assert!(!str_equal("abc", "abd"));
    assert!(!str_equal("abc", "ab"));
    assert!(!str_equal("ab", "abc"));
}

#[test]
fn decimal_notation() {
    assert_eq!(decimal_nat(0), "0");
    assert_eq!(decimal_nat(7), "7");
    assert_eq!(decimal_nat(10), "10");
    assert_eq!(decimal_nat(1234567890), "1234567890");
    assert_eq!(decimal_nat(u128::MAX), u128::MAX.to_string());
    assert_eq!(decimal(0), "0");
    assert_eq!(decimal(-1), "-1");
    assert_eq!(decimal(-120), "-120");
    assert_eq!(decimal(i128::MIN), i128::MIN.to_string());
    assert_eq!(decimal(i128::MAX), i128::MAX.to_string());
}
