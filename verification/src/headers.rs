//! Cookies as response headers.

use axum::http::header::{InvalidHeaderValue, SET_COOKIE};
use axum::http::{HeaderMap, HeaderValue};
use vstd::prelude::*;

verus! {

/// `HeaderMap` of axum's http: the headers of a response.
#[verifier::external_type_specification]
#[verifier::external_body]
#[verifier::reject_recursive_types(T)]
pub struct ExHeaderMap<T>(axum::http::HeaderMap<T>);

/// `HeaderValue` of axum's http: the bytes of one header.
#[verifier::external_type_specification]
#[verifier::external_body]
pub struct ExHeaderValue(axum::http::HeaderValue);

/// `InvalidHeaderValue` of axum's http: that a text makes no header.
#[verifier::external_type_specification]
#[verifier::external_body]
pub struct ExInvalidHeaderValue(axum::http::header::InvalidHeaderValue);

/// The headers that a map holds: for each name, the bytes of its values in their order.
pub uninterp spec fn header_lines(headers: HeaderMap<HeaderValue>) -> Map<Seq<char>, Seq<Seq<u8>>>;

/// The bytes that a header value holds.
pub uninterp spec fn header_bytes(value: HeaderValue) -> Seq<u8>;

/// The text can stand in a header: it has no control character but the tab.
pub open spec fn fits_header(text: Seq<char>) -> bool {
    forall|i: int|
        0 <= i < text.len() ==> {
            ||| (#[trigger] text[i]) >= '\u{20}' && text[i] != '\u{7f}'
            ||| text[i] == '\u{9}'
        }
}

/// `HeaderMap::new` of axum's http: a map that holds nothing.
#[verifier::external_body]
fn no_headers() -> (headers: HeaderMap<HeaderValue>)
    ensures
        header_lines(headers).dom() == Set::<Seq<char>>::empty(),
{
    HeaderMap::new()
}

/// `HeaderValue::from_str` of axum's http: the UTF-8 bytes of the text, and an error where one
/// of them is below 32 and no tab, or is 127.
#[verifier::external_body]
fn header_value(text: &str) -> (value: Result<HeaderValue, InvalidHeaderValue>)
    ensures
        value is Ok <==> fits_header(text@),
        value matches Ok(value) ==> header_bytes(value) == vstd::utf8::encode_utf8(text@),
{
    HeaderValue::from_str(text)
}

/// `HeaderMap::append` of axum's http, under the name `set-cookie`: the value comes after the
/// ones under that name, and nothing else changes. The call panics when the map has no room for
/// a further name, which a map without other names always has.
#[verifier::external_body]
fn append_set_cookie(headers: &mut HeaderMap<HeaderValue>, value: HeaderValue)
    requires
        forall|name: Seq<char>| #[trigger]
            header_lines(*old(headers)).contains_key(name) ==> name == "set-cookie"@,
    ensures
        header_lines(*final(headers)) == header_lines(*old(headers)).insert(
            "set-cookie"@,
            lines_under(header_lines(*old(headers)), "set-cookie"@).push(header_bytes(value)),
        ),
{
    headers.append(SET_COOKIE, value);
}

/// The values under a name, none where the name does not occur.
pub open spec fn lines_under(
    lines: Map<Seq<char>, Seq<Seq<u8>>>,
    name: Seq<char>,
) -> Seq<Seq<u8>> {
    if lines.contains_key(name) {
        lines[name]
    } else {
        Seq::empty()
    }
}

/// The bytes of those cookies that can stand in a header, in their order.
pub open spec fn cookie_lines(cookies: Seq<String>) -> Seq<Seq<u8>>
    decreases cookies.len(),
{
    if cookies.len() == 0 {
        Seq::empty()
    } else if fits_header(cookies.last()@) {
        cookie_lines(cookies.drop_last()).push(vstd::utf8::encode_utf8(cookies.last()@))
    } else {
        cookie_lines(cookies.drop_last())
    }
}

/// The headers that set a list of cookies: one `set-cookie` each, and no other header.
pub open spec fn cookie_headers(cookies: Seq<String>) -> Map<Seq<char>, Seq<Seq<u8>>> {
    if cookie_lines(cookies).len() == 0 {
        Map::empty()
    } else {
        Map::empty().insert("set-cookie"@, cookie_lines(cookies))
    }
}

/// The headers that set the cookies; one that cannot stand in a header is left out.
pub fn set_cookie_headers(cookies: &Vec<String>) -> (headers: HeaderMap<HeaderValue>)
    ensures
        header_lines(headers) == cookie_headers(cookies@),
{
    let mut headers = no_headers();
    for i in 0..cookies.len()
        invariant
            header_lines(headers) == cookie_headers(cookies@.take(i as int)),
    {
        proof {
            assert(cookies@.take(i + 1).drop_last() == cookies@.take(i as int));
        }
        if let Ok(value) = header_value(cookies[i].as_str()) {
            append_set_cookie(&mut headers, value);
            proof {
                assert(cookies@.take(i + 1).last() == cookies@[i as int]);
                assert(lines_under(cookie_headers(cookies@.take(i as int)), "set-cookie"@)
                    =~= cookie_lines(cookies@.take(i as int)));
                assert(header_lines(headers) =~= cookie_headers(cookies@.take(i + 1)));
            }
        }
    }
    assert(cookies@.take(cookies@.len() as int) == cookies@);
    headers
}

} // verus!
