//! The header collection of a request or response, read through `hyper`'s
//! re-export of the `http` crate's `HeaderMap`.
//!
//! Verus does not look inside a `HeaderMap`. What a map holds is named by
//! [`header_entries`], what a value holds by [`value_bytes`], and the few
//! methods that the middleware calls are given contracts over those names.

use crate::span::{index_of_is_first, lookup};
use hyper::header::{HeaderMap, HeaderValue};
use vstd::prelude::*;

verus! {

/// `http::HeaderMap`, the multimap of header names to values, taken as it
/// is: nothing is known of a map but what the contracts below say.
#[verifier::external_type_specification]
#[verifier::external_body]
#[verifier::reject_recursive_types(T)]
pub struct ExHeaderMap<T>(HeaderMap<T>);

/// `http::HeaderValue`, the bytes of one header value with the mark that
/// tells whether they are sensitive, taken as it is.
#[verifier::external_type_specification]
#[verifier::external_body]
pub struct ExHeaderValue(HeaderValue);

/// The bytes that a header value holds, as `HeaderValue::as_bytes` shows
/// them.
pub uninterp spec fn value_bytes(value: HeaderValue) -> Seq<u8>;

/// What a header map holds: for each header name, in the order in which
/// `HeaderMap::keys` lists the names, the name and the bytes of the first
/// value stored under it.
pub uninterp spec fn header_entries(map: HeaderMap<HeaderValue>) -> Seq<(Seq<char>, Seq<u8>)>;

/// A character with an upper-case ASCII letter turned into lower case.
pub open spec fn ascii_lower_char(c: char) -> char {
    if 'A' <= c <= 'Z' {
        ((c as u8 + 32) as u8) as char
    } else {
        c
    }
}

/// A text with its upper-case ASCII letters turned into lower case.
pub open spec fn ascii_lower(s: Seq<char>) -> Seq<char> {
    Seq::new(s.len(), |i: int| ascii_lower_char(s[i]))
}

/// Whether a byte is visible ASCII: a printable character, a space or a tab.
pub open spec fn is_visible(b: u8) -> bool {
    32 <= b < 127 || b == 9
}

/// Whether all bytes of a value are visible ASCII.
pub open spec fn is_visible_text(bytes: Seq<u8>) -> bool {
    forall|i: int| 0 <= i < bytes.len() ==> is_visible(#[trigger] bytes[i])
}

/// The characters that ASCII bytes encode, one per byte.
pub open spec fn as_chars(bytes: Seq<u8>) -> Seq<char> {
    Seq::new(bytes.len(), |i: int| bytes[i] as char)
}

/// The text of a header value: its characters where all bytes are visible
/// ASCII, nothing otherwise.
pub open spec fn text_of(bytes: Seq<u8>) -> Option<Seq<char>> {
    if is_visible_text(bytes) {
        Some(as_chars(bytes))
    } else {
        None
    }
}

/// The first value that the entries hold under `key`, compared without
/// regard to ASCII case.
pub open spec fn first_value(entries: Seq<(Seq<char>, Seq<u8>)>, key: Seq<char>) -> Option<
    Seq<u8>,
> {
    lookup(entries, ascii_lower(key))
}

/// The text of the first value that the entries hold under `key`.
pub open spec fn first_text(entries: Seq<(Seq<char>, Seq<u8>)>, key: Seq<char>) -> Option<
    Seq<char>,
> {
    match first_value(entries, key) {
        Some(bytes) => text_of(bytes),
        None => None,
    }
}

/// Lower case is kept by `ascii_lower`.
pub proof fn ascii_lower_is_idempotent(s: Seq<char>)
    ensures
        ascii_lower(ascii_lower(s)) == ascii_lower(s),
{
    assert(ascii_lower(ascii_lower(s)) =~= ascii_lower(s));
}

/// Headers are found without regard to ASCII case: two keys that differ in
/// case only find the same value and the same text.
pub proof fn lookup_ignores_case(entries: Seq<(Seq<char>, Seq<u8>)>, a: Seq<char>, b: Seq<char>)
    requires
        ascii_lower(a) == ascii_lower(b),
    ensures
        first_value(entries, a) == first_value(entries, b),
        first_text(entries, a) == first_text(entries, b),
        first_value(entries, ascii_lower(a)) == first_value(entries, a),
{
    ascii_lower_is_idempotent(a);
}

/// Whether the names of the entries are in lower case and pairwise distinct,
/// as the names of a header map are.
pub open spec fn names_are_normal(entries: Seq<(Seq<char>, Seq<u8>)>) -> bool {
    &&& forall|i: int|
        0 <= i < entries.len() ==> ascii_lower(#[trigger] entries[i].0) == entries[i].0
    &&& forall|i: int, j: int|
        0 <= i < j < entries.len() ==> #[trigger] entries[i].0 != #[trigger] entries[j].0
}

/// Among names in lower case, no two of them the same, a key finds the one
/// entry whose name it equals without regard to ASCII case, and finds
/// nothing where there is no such entry.
pub proof fn lookup_is_case_blind(entries: Seq<(Seq<char>, Seq<u8>)>, key: Seq<char>)
    requires
        names_are_normal(entries),
    ensures
        forall|i: int|
            0 <= i < entries.len() && ascii_lower(#[trigger] entries[i].0) == ascii_lower(key)
                ==> first_value(entries, key) == Some(entries[i].1),
        first_value(entries, key) is None ==> forall|i: int|
            0 <= i < entries.len() ==> ascii_lower(#[trigger] entries[i].0) != ascii_lower(key),
{
    index_of_is_first(entries, ascii_lower(key));
}

/// `HeaderValue::clone`: the copy holds the same bytes.
pub assume_specification[ <HeaderValue as Clone>::clone ](value: &HeaderValue) -> (copy:
    HeaderValue)
    ensures
        value_bytes(copy) == value_bytes(*value),
;

/// `HeaderMap::get` with a string key: the first value stored under the
/// name, which the map compares without regard to ASCII case; `None` where
/// the map has no such name.
#[verifier::external_body]
pub(crate) fn first<'a>(map: &'a HeaderMap<HeaderValue>, key: &str) -> (value: Option<
    &'a HeaderValue,
>)
    ensures
        match value {
            Some(v) => first_value(header_entries(*map), key@) == Some(value_bytes(*v)),
            None => first_value(header_entries(*map), key@) is None,
        },
{
    map.get(key)
}

/// `HeaderMap::keys`: each name that the map holds, once, in the map's order.
/// A header name is kept in lower case, and a map keeps one entry for a
/// name, so the names listed are in lower case and no two are the same.
#[verifier::external_body]
pub(crate) fn names<'a>(map: &'a HeaderMap<HeaderValue>) -> (names: Vec<&'a str>)
    ensures
        names@.len() == header_entries(*map).len(),
        forall|i: int|
            0 <= i < names@.len() ==> (#[trigger] names@[i])@ == header_entries(*map)[i].0,
        forall|i: int|
            0 <= i < names@.len() ==> ascii_lower((#[trigger] names@[i])@) == names@[i]@,
        forall|i: int, j: int|
            0 <= i < j < names@.len() ==> (#[trigger] names@[i])@ != (#[trigger] names@[j])@,
{
    map.keys().map(|name| name.as_str()).collect()
}

/// `HeaderValue::to_str`: the value as a string slice where all its bytes are
/// visible ASCII, each byte being one character; `None` otherwise.
#[verifier::external_body]
pub(crate) fn value_text<'a>(value: &'a HeaderValue) -> (text: Option<&'a str>)
    ensures
        match text {
            Some(s) => text_of(value_bytes(*value)) == Some(s@),
            None => text_of(value_bytes(*value)) is None,
        },
{
    value.to_str().ok()
}

/// `HeaderValue::from_static` on the empty string: a value without bytes.
#[verifier::external_body]
pub(crate) fn empty_value() -> (value: HeaderValue)
    ensures
        value_bytes(value) == Seq::<u8>::empty(),
{
    HeaderValue::from_static("")
}

/// `HeaderMap::clone`: the copy holds what the map holds.
#[verifier::external_body]
pub(crate) fn clone_map(map: &HeaderMap<HeaderValue>) -> (copy: HeaderMap<HeaderValue>)
    ensures
        header_entries(copy) == header_entries(*map),
{
    map.clone()
}

/// The names that the map holds, each once, in the map's order. They are in
/// lower case and no two of them are the same.
pub fn listed_names<'a>(map: &'a HeaderMap<HeaderValue>) -> (listed: Vec<&'a str>)
    ensures
        listed@.len() == header_entries(*map).len(),
        forall|i: int|
            0 <= i < listed@.len() ==> (#[trigger] listed@[i])@ == header_entries(*map)[i].0,
        names_are_normal(header_entries(*map)),
{
    let listed = names(map);
    proof {
        let entries = header_entries(*map);
        assert forall|i: int| 0 <= i < entries.len() implies ascii_lower(
            #[trigger] entries[i].0,
        ) == entries[i].0 by {
            assert(listed@[i]@ == entries[i].0);
        }
        assert forall|i: int, j: int| 0 <= i < j < entries.len() implies #[trigger] entries[i].0
            != #[trigger] entries[j].0 by {
            assert(listed@[i]@ == entries[i].0);
            assert(listed@[j]@ == entries[j].0);
        }
    }
    listed
}

/// The text of the first value stored under `key`, if the map has the name
/// and the value is visible ASCII.
pub fn text<'a>(map: &'a HeaderMap<HeaderValue>, key: &str) -> (text: Option<&'a str>)
    ensures
        match text {
            Some(s) => first_text(header_entries(*map), key@) == Some(s@),
            None => first_text(header_entries(*map), key@) is None,
        },
{
    match first(map, key) {
        Some(value) => value_text(value),
        None => None,
    }
}

} // verus!
