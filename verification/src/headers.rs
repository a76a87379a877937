//! Header sets and header values.
//!
//! The header set of a client is a `HeaderMap` of the HTTP library. This
//! file says what that type does: each function here that is marked
//! `external_body` calls one function of the HTTP library, and its contract
//! is taken on trust. What the rest of the crate says about header sets is
//! proved from these contracts.

use vstd::prelude::*;
use vstd::utf8::encode_utf8;
use reqwest::header::HeaderMap;
use reqwest::header::HeaderValue;
use reqwest::header::InvalidHeaderValue;

verus! {

/// `reqwest::header::HeaderMap`, the header multimap of the `http` crate.
/// The proofs see nothing inside it; `header_map_entries` stands for what
/// it holds.
#[verifier::external_type_specification]
#[verifier::external_body]
#[verifier::reject_recursive_types(T)]
pub struct ExHeaderMap<T>(reqwest::header::HeaderMap<T>);

/// `reqwest::header::HeaderValue`, one header value of the `http` crate.
/// `header_value_bytes` stands for what it holds.
#[verifier::external_type_specification]
#[verifier::external_body]
pub struct ExHeaderValue(reqwest::header::HeaderValue);

/// `reqwest::header::InvalidHeaderValue`, the error of
/// `HeaderValue::from_str`. It says nothing but that the text was refused.
#[verifier::external_type_specification]
#[verifier::external_body]
pub struct ExInvalidHeaderValue(reqwest::header::InvalidHeaderValue);

/// What a header set holds, as a mathematical map: each header name, in the
/// lower case in which the map keeps it, to the bytes of its value.
pub type HeaderEntries = Map<Seq<char>, Seq<u8>>;

/// The contents of a `HeaderMap`: each name that it holds, as
/// `HeaderName::as_str` gives it, mapped to the bytes of the first value
/// stored under that name.
pub uninterp spec fn header_map_entries(m: HeaderMap) -> Map<Seq<char>, Seq<u8>>;

/// The bytes of a `HeaderValue`, as `HeaderValue::as_bytes` gives them.
pub uninterp spec fn header_value_bytes(v: HeaderValue) -> Seq<u8>;

/// The most names that a header set built here may hold before another is
/// inserted.
pub const MAX_HEADERS: usize = 1024;

/// A byte that a header value may hold: a tab, or anything from the space
/// upwards but DEL.
pub open spec fn is_value_byte(b: u8) -> bool {
    (b >= 32 && b != 127) || b == 9
}

/// A byte of visible ASCII: a tab, or anything from the space up to `~`.
pub open spec fn is_visible_byte(b: u8) -> bool {
    (32 <= b < 127) || b == 9
}

/// Text that can be the value of a header: every byte of its UTF-8 form is
/// a value byte.
pub open spec fn is_header_text(s: Seq<char>) -> bool {
    forall|i: int| 0 <= i < encode_utf8(s).len() ==> is_value_byte(#[trigger] encode_utf8(s)[i])
}

/// Text made of visible ASCII alone.
pub open spec fn is_visible_text(s: Seq<char>) -> bool {
    forall|i: int| 0 <= i < encode_utf8(s).len() ==> is_visible_byte(#[trigger] encode_utf8(s)[i])
}

/// A character of a plain header name: a lower-case letter, a digit or a
/// hyphen.
pub open spec fn is_name_char(c: char) -> bool {
    ('a' <= c <= 'z') || ('0' <= c <= '9') || c == '-'
}

/// A plain header name: between 1 and 64 characters, each a lower-case
/// letter, a digit or a hyphen. A header map stores such a name as it is
/// written.
pub open spec fn is_plain_name(name: Seq<char>) -> bool {
    &&& 1 <= name.len() <= 64
    &&& forall|i: int| 0 <= i < name.len() ==> is_name_char(#[trigger] name[i])
}

/// Whether one more name may be inserted into a header set with these
/// entries.
pub open spec fn has_room(entries: Map<Seq<char>, Seq<u8>>) -> bool {
    entries.dom().finite() && entries.dom().len() < MAX_HEADERS
}

/// `HeaderMap::new`: a header map that holds nothing.
#[verifier::external_body]
pub(crate) fn header_map_new() -> (m: HeaderMap)
    ensures
        header_map_entries(m) == HeaderEntries::empty(),
{
    HeaderMap::new()
}

/// `HeaderMap::insert` with a `&'static str` as the name. For a plain name
/// the map stores the name unchanged; the value replaces whatever the name
/// held before, and every other name keeps its value. `insert` panics on a
/// name that is no header name, and when the map would have to grow past
/// 32768 slots, which it tries only while at least a fifth of that many
/// names are stored: both are left out here.
#[verifier::external_body]
pub(crate) fn header_map_insert(m: &mut HeaderMap, name: &'static str, value: HeaderValue)
    requires
        is_plain_name(name@),
        has_room(header_map_entries(*old(m))),
    ensures
        header_map_entries(*final(m)) == header_map_entries(*old(m)).insert(
            name@,
            header_value_bytes(value),
        ),
{
    m.insert(name, value);
}

/// `HeaderMap::clone`: a header map with the same contents.
#[verifier::external_body]
pub(crate) fn header_map_clone(m: &HeaderMap) -> (c: HeaderMap)
    ensures
        header_map_entries(c) == header_map_entries(*m),
{
    m.clone()
}

/// `HeaderValue::from_static`: a value that holds the bytes of `s`. It
/// panics unless `s` is visible ASCII: that is left out here.
#[verifier::external_body]
pub(crate) fn header_value_from_static(s: &'static str) -> (v: HeaderValue)
    requires
        is_visible_text(s@),
    ensures
        header_value_bytes(v) == encode_utf8(s@),
{
    HeaderValue::from_static(s)
}

/// `HeaderValue::from_str`: a value that holds the bytes of `s`, or an
/// error where some byte of `s` is not a value byte.
#[verifier::external_body]
pub(crate) fn header_value_from_str(s: &str) -> (r: Result<HeaderValue, InvalidHeaderValue>)
    ensures
        r is Ok <==> is_header_text(s@),
        r is Ok ==> header_value_bytes(r->Ok_0) == encode_utf8(s@),
{
    HeaderValue::from_str(s)
}

/// Whether `s` can be the value of a header.
pub fn is_header_value(s: &str) -> (r: bool)
    ensures
        r == is_header_text(s@),
{
    let bytes = s.as_bytes();
    let mut i: usize = 0;
    while i < bytes.len()
        invariant
            i <= bytes.len(),
            bytes@ == encode_utf8(s@),
            forall|j: int| 0 <= j < i ==> is_value_byte(#[trigger] bytes@[j]),
        decreases bytes.len() - i,
    {
        let b = bytes[i];
        if !((b >= 32 && b != 127) || b == 9) {
            return false;
        }
        i += 1;
    }
    true
}

/// Whether `s` is made of visible ASCII alone.
pub fn is_visible_value(s: &str) -> (r: bool)
    ensures
        r == is_visible_text(s@),
{
    let bytes = s.as_bytes();
    let mut i: usize = 0;
    while i < bytes.len()
        invariant
            i <= bytes.len(),
            bytes@ == encode_utf8(s@),
            forall|j: int| 0 <= j < i ==> is_visible_byte(#[trigger] bytes@[j]),
        decreases bytes.len() - i,
    {
        let b = bytes[i];
        if !((b >= 32 && b < 127) || b == 9) {
            return false;
        }
        i += 1;
    }
    true
}

/// Text of characters from the space up to `~` is visible ASCII, and its
/// UTF-8 form has one byte for each character.
pub proof fn lemma_printable_is_visible(s: Seq<char>)
    requires
        forall|i: int| 0 <= i < s.len() ==> ' ' <= #[trigger] s[i] <= '~',
    ensures
        is_visible_text(s),
        encode_utf8(s).len() == s.len(),
        forall|i: int| 0 <= i < s.len() ==> #[trigger] encode_utf8(s)[i] == s[i] as u8,
{
    vstd::utf8::is_ascii_chars_encode_utf8(s);
}

} // verus!
