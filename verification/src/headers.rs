//! Reading request headers.

use hyper::header::HeaderValue;
use hyper::HeaderMap;
use vstd::prelude::*;

verus! {

/// The header table of an HTTP message.
#[verifier::external_type_specification]
#[verifier::external_body]
#[verifier::reject_recursive_types(T)]
pub struct ExHeaderMap<T>(HeaderMap<T>);

/// The value of one header.
#[verifier::external_type_specification]
#[verifier::external_body]
pub struct ExHeaderValue(HeaderValue);

/// What a header table holds: under each name, in lower case, the values in the order in which
/// they came. A name with no value is not in the map.
pub uninterp spec fn header_contents(headers: HeaderMap<HeaderValue>) -> Map<
    Seq<char>,
    Seq<Seq<u8>>,
>;

/// A character with `A` to `Z` turned into `a` to `z`.
pub open spec fn ascii_lower(c: char) -> char {
    if 'A' <= c <= 'Z' {
        (c as u32 + 32) as char
    } else {
        c
    }
}

/// The name under which the table files a header: the case of ASCII letters makes no difference.
pub open spec fn header_key(name: Seq<char>) -> Seq<char> {
    name.map_values(|c: char| ascii_lower(c))
}

/// The value under a name that counts: the first one.
pub open spec fn first_value(
    contents: Map<Seq<char>, Seq<Seq<u8>>>,
    name: Seq<char>,
) -> Option<Seq<u8>> {
    if contents.contains_key(header_key(name)) {
        Some(contents[header_key(name)][0])
    } else {
        None
    }
}

/// Whether a byte is a tab or a visible ASCII character.
pub open spec fn is_visible(byte: u8) -> bool {
    32 <= byte < 127 || byte == 9
}

/// The characters of a header value, if every byte of it is visible ASCII.
pub open spec fn value_text(bytes: Seq<u8>) -> Option<Seq<char>> {
    if forall|i: int| 0 <= i < bytes.len() ==> is_visible(#[trigger] bytes[i]) {
        Some(bytes.map_values(|byte: u8| byte as char))
    } else {
        None
    }
}

/// Looks up the first value under `name` with `HeaderMap::get`, and copies its bytes.
///
/// `HeaderMap::get` compares names without regard to the case of ASCII letters, gives the first
/// of several values, and gives none for a name that no header can have.
#[verifier::external_body]
pub(crate) fn get_header(headers: &HeaderMap<HeaderValue>, name: &str) -> (value: Option<Vec<u8>>)
    ensures
        match value {
            Some(bytes) => first_value(header_contents(*headers), name@) == Some(bytes@),
            None => first_value(header_contents(*headers), name@) is None,
        },
{
    headers.get(name).map(|value| value.as_bytes().to_vec())
}

/// Reads the bytes of a header value as text, with `HeaderValue::from_bytes` and
/// `HeaderValue::to_str`.
///
/// `to_str` succeeds on visible ASCII and tabs only, and keeps every character; `from_bytes`
/// refuses nothing that `to_str` would accept.
#[verifier::external_body]
pub(crate) fn header_text(bytes: &[u8]) -> (text: Option<String>)
    ensures
        match text {
            Some(text) => value_text(bytes@) == Some(text@),
            None => value_text(bytes@) is None,
        },
{
    HeaderValue::from_bytes(bytes).ok()?.to_str().ok().map(String::from)
}

/// What a request's headers say under one name.
pub enum HeaderRead {
    /// The header is not there.
    Missing,
    /// The header is there, and its value is not visible ASCII.
    Unreadable,
    /// The text of the header.
    Text(String),
}

/// The reading of a header, over what the table holds.
pub open spec fn header_reading(
    contents: Map<Seq<char>, Seq<Seq<u8>>>,
    name: Seq<char>,
) -> Option<Option<Seq<char>>> {
    match first_value(contents, name) {
        Some(bytes) => Some(value_text(bytes)),
        None => None,
    }
}

impl View for HeaderRead {
    type V = Option<Option<Seq<char>>>;

    open spec fn view(&self) -> Option<Option<Seq<char>>> {
        match self {
            HeaderRead::Missing => None,
            HeaderRead::Unreadable => Some(None),
            HeaderRead::Text(text) => Some(Some(text@)),
        }
    }
}

/// Reads the header called `name`.
pub fn read_header(headers: &HeaderMap<HeaderValue>, name: &str) -> (read: HeaderRead)
    ensures
        read@ == header_reading(header_contents(*headers), name@),
{
    match get_header(headers, name) {
        None => HeaderRead::Missing,
        Some(bytes) => match header_text(bytes.as_slice()) {
            None => HeaderRead::Unreadable,
            Some(text) => HeaderRead::Text(text),
        },
    }
}

/// Gives the address that a proxy reports for the client in the header called `name`, if that
/// header is there and is readable text.
pub fn get_xff_ip(headers: &HeaderMap<HeaderValue>, name: &str) -> (ip: Option<String>)
    ensures
        match ip {
            Some(text) => header_reading(header_contents(*headers), name@) == Some(Some(text@)),
            None => !(header_reading(header_contents(*headers), name@) matches Some(Some(_))),
        },
{
    match read_header(headers, name) {
        HeaderRead::Text(text) => Some(text),
        _ => None,
    }
}

} // verus!
