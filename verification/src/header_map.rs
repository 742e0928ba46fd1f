//! The `http` crate's header map and header values, as the library reads them.

use http::{HeaderMap, HeaderValue};
use vstd::prelude::*;
use vstd::string::StringSliceAdditionalSpecFns;

use crate::text::{all_visible_ascii, ascii_chars};

verus! {

/// `http::HeaderValue`, opaque: what it holds is [`header_value_bytes`].
#[verifier::external_type_specification]
#[verifier::external_body]
pub struct ExHeaderValue(HeaderValue);

/// `http::HeaderMap`, opaque: what it holds is [`header_entries`].
#[verifier::external_type_specification]
#[verifier::external_body]
#[verifier::reject_recursive_types(T)]
pub struct ExHeaderMap<T>(http::HeaderMap<T>);

/// The bytes that a header value holds.
pub uninterp spec fn header_value_bytes(value: HeaderValue) -> Seq<u8>;

/// What a header map holds: for each header name, in lowercase, the bytes of the
/// values stored under it, in the order in which they were appended.
pub uninterp spec fn header_entries(headers: HeaderMap) -> Map<Seq<char>, Seq<Seq<u8>>>;

/// A header name that `http` accepts as it is written: one or more ASCII letters,
/// digits and hyphens.
pub open spec fn is_plain_header_name(name: Seq<char>) -> bool {
    &&& name.len() > 0
    &&& forall|i: int|
        0 <= i < name.len() ==> {
            let c = #[trigger] name[i];
            ('a' <= c && c <= 'z') || ('A' <= c && c <= 'Z') || ('0' <= c && c <= '9') || c == '-'
        }
}

/// An ASCII character in lowercase.
pub open spec fn ascii_lower_char(c: char) -> char {
    if 'A' <= c && c <= 'Z' {
        ((c as u32) + 32) as char
    } else {
        c
    }
}

/// A header name as `http` stores it: in lowercase.
pub open spec fn ascii_lowercase(name: Seq<char>) -> Seq<char> {
    name.map_values(|c: char| ascii_lower_char(c))
}

/// The bytes of the first value stored under `name` (in any case), if any.
pub open spec fn first_header_value(headers: HeaderMap, name: Seq<char>) -> Option<Seq<u8>> {
    let key = ascii_lowercase(name);
    if header_entries(headers).contains_key(key) {
        Some(header_entries(headers)[key][0])
    } else {
        None
    }
}

/// `HeaderMap::get` with a header name given as text: the map compares names
/// without regard to case and hands out the first value stored under the name, or
/// nothing when the name is absent. That is what is stated, over
/// [`header_entries`]. The value handed out is a copy of the stored one.
#[verifier::external_body]
pub(crate) fn header_get(headers: &HeaderMap, name: &str) -> (r: Option<HeaderValue>)
    requires
        is_plain_header_name(name@),
    ensures
        r is Some <==> header_entries(*headers).contains_key(ascii_lowercase(name@)),
        r matches Some(v) ==> header_value_bytes(v) == header_entries(*headers)[ascii_lowercase(name@)][0],
{
    headers.get(name).cloned()
}

/// `HeaderValue::to_str`: the value as text when every byte is visible ASCII, and
/// nothing otherwise. The text holds the value's bytes, one character each.
#[verifier::external_body]
pub(crate) fn header_value_to_str(value: &HeaderValue) -> (r: Option<&str>)
    ensures
        r is Some <==> all_visible_ascii(header_value_bytes(*value)),
        r matches Some(s) ==> s@ == ascii_chars(header_value_bytes(*value))
            && s.spec_bytes() == header_value_bytes(*value),
{
    value.to_str().ok()
}

} // verus!
