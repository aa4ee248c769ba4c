//! The headers that every request carries, held in the header map of the
//! HTTP client.
//!
//! The first part of this file is the boundary to `reqwest::header` and is
//! not proved: each item states what one item of that module does. The
//! second part is verified against those statements.

use vstd::prelude::*;
use vstd::string::StringSliceAdditionalSpecFns;

verus! {

/// `reqwest::header::HeaderMap`, the header map of the HTTP client.
#[verifier::external_type_specification]
#[verifier::external_body]
#[verifier::reject_recursive_types(T)]
pub struct ExHeaderMap<T>(reqwest::header::HeaderMap<T>);

/// `reqwest::header::HeaderName`, the name of a header.
#[verifier::external_type_specification]
#[verifier::external_body]
pub struct ExHeaderName(reqwest::header::HeaderName);

/// `reqwest::header::HeaderValue`, the value of a header.
#[verifier::external_type_specification]
#[verifier::external_body]
pub struct ExHeaderValue(reqwest::header::HeaderValue);

/// What `map` holds: for each header name in it, as `HeaderName::as_str`
/// spells the name, the bytes of each of its values in their order.
pub uninterp spec fn header_lines(
    map: reqwest::header::HeaderMap<reqwest::header::HeaderValue>,
) -> Map<Seq<char>, Seq<Seq<u8>>>;

/// The number of header names in `map`, as `HeaderMap::keys_len` counts them.
pub uninterp spec fn header_count(
    map: reqwest::header::HeaderMap<reqwest::header::HeaderValue>,
) -> nat;

/// The spelling of `name` that `HeaderName::as_str` gives, in lower case.
pub uninterp spec fn header_name_text(name: reqwest::header::HeaderName) -> Seq<char>;

/// The bytes of `value` that `HeaderValue::as_bytes` gives.
pub uninterp spec fn header_value_bytes(value: reqwest::header::HeaderValue) -> Seq<u8>;

/// A character that a header value made from a string literal may hold: a
/// tab, or ASCII from the space to the tilde.
pub open spec fn is_header_char(c: char) -> bool {
    c == '\t' || (' ' <= c && c <= '~')
}

/// Every character of `text` may stand in a header value.
pub open spec fn is_header_text(text: Seq<char>) -> bool {
    forall|i: int| 0 <= i < text.len() ==> is_header_char(#[trigger] text[i])
}

/// What a header map without any header holds.
pub open spec fn no_headers() -> Map<Seq<char>, Seq<Seq<u8>>> {
    Map::empty()
}

/// Calls `HeaderMap::new`. Believed: the new map holds no header.
#[verifier::external_body]
pub(crate) fn empty_headers() -> (headers: reqwest::header::HeaderMap<reqwest::header::HeaderValue>)
    ensures
        header_lines(headers) == no_headers(),
        header_count(headers) == 0,
{
    reqwest::header::HeaderMap::new()
}

/// Calls `HeaderMap::insert`. Believed: afterwards `name` has the one value
/// `value`, whatever it had before, and every other name has what it had.
/// The map panics where its table would have to grow beyond 32768 slots;
/// with fewer than 1024 names it never has to.
#[verifier::external_body]
pub(crate) fn set_header(
    map: &mut reqwest::header::HeaderMap<reqwest::header::HeaderValue>,
    name: reqwest::header::HeaderName,
    value: reqwest::header::HeaderValue,
)
    requires
        header_count(*old(map)) < 1024,
    ensures
        header_lines(*final(map)) == header_lines(*old(map)).insert(
            header_name_text(name),
            seq![header_value_bytes(value)],
        ),
        header_count(*final(map)) <= header_count(*old(map)) + 1,
{
    map.insert(name, value);
}

/// Calls `HeaderValue::from_static`. Believed: the value holds the bytes of
/// `text`. The call panics on a byte that is neither a tab nor visible
/// ASCII, which the precondition leaves out.
#[verifier::external_body]
pub(crate) fn static_header_value(text: &'static str) -> (value: reqwest::header::HeaderValue)
    requires
        is_header_text(text@),
    ensures
        header_value_bytes(value) == text.spec_bytes(),
{
    reqwest::header::HeaderValue::from_static(text)
}

/// Gives the constant `reqwest::header::CONTENT_TYPE`. Believed: its name
/// is spelled `content-type`.
#[verifier::external_body]
pub(crate) fn content_type_name() -> (name: reqwest::header::HeaderName)
    ensures
        header_name_text(name) == "content-type"@,
{
    reqwest::header::CONTENT_TYPE
}

/// Gives the constant `reqwest::header::ACCEPT`. Believed: its name is
/// spelled `accept`.
#[verifier::external_body]
pub(crate) fn accept_name() -> (name: reqwest::header::HeaderName)
    ensures
        header_name_text(name) == "accept"@,
{
    reqwest::header::ACCEPT
}

/// The media type that requests are sent in and replies are asked for in.
pub const JSON_UTF8: &'static str = "application/json; charset=utf-8";

/// The two headers of every request: the body is JSON in UTF-8, and so
/// should the reply be.
pub open spec fn standard_headers() -> Map<Seq<char>, Seq<Seq<u8>>> {
    map![
        "content-type"@ => seq![JSON_UTF8.spec_bytes()],
        "accept"@ => seq![JSON_UTF8.spec_bytes()],
    ]
}

proof fn json_utf8_is_header_text()
    ensures
        is_header_text(JSON_UTF8@),
{
    reveal_strlit("application/json; charset=utf-8");
}

/// Builds the headers of a request.
pub fn create_headers() -> (headers: reqwest::header::HeaderMap<reqwest::header::HeaderValue>)
    ensures
        header_lines(headers) == standard_headers(),
{
    proof {
        json_utf8_is_header_text();
    }
    let mut headers = empty_headers();
    set_header(&mut headers, content_type_name(), static_header_value(JSON_UTF8));
    set_header(&mut headers, accept_name(), static_header_value(JSON_UTF8));
    assert(header_lines(headers) =~= standard_headers());
    headers
}

} // verus!
