//! The header multimap of `actix_web`, seen through a mathematical model.
//!
//! `HeaderMap` itself is opaque to the verifier. Everything the rest of the
//! crate knows about it is stated here: what a map holds ([`header_entries`]),
//! how a name given as bytes is brought to its stored form
//! ([`canonical_name`]), and what the few map operations used by the proxy do
//! to the contents. The operations are not verified; their contracts restate
//! the behaviour of `actix-http` and `http`.

use actix_web::http::header::{HeaderMap, HeaderName, HeaderValue};
use vstd::prelude::*;

verus! {

#[verifier::external_type_specification]
#[verifier::external_body]
pub struct ExHeaderMap(actix_web::http::header::HeaderMap);

/// The contents of a header set: names, in their stored form, with the values
/// of each.
pub type Headers = Map<Seq<u8>, Seq<Seq<u8>>>;

/// What a header map holds: every stored name, as the lower-case bytes that
/// `HeaderName::as_str` gives, mapped to the bytes of its values
/// (`HeaderValue::as_bytes`) in the order in which `HeaderMap::get_all` yields
/// them. A stored name always has at least one value.
pub uninterp spec fn header_entries(m: HeaderMap) -> Map<Seq<u8>, Seq<Seq<u8>>>;

/// The punctuation that may occur in a header name.
pub open spec fn is_name_symbol(b: u8) -> bool {
    ('!' as u8 <= b && b <= '\'' as u8) || b == '*' as u8 || b == '+' as u8 || b == '-' as u8
        || b == '.' as u8 || b == '^' as u8 || b == '_' as u8 || b == '`' as u8 || b == '|' as u8
        || b == '~' as u8
}

/// The stored form of one byte of a header name: upper-case letters are
/// lowered, other name bytes stand for themselves, and `0` marks a byte that
/// no header name may hold.
pub open spec fn name_byte(b: u8) -> u8 {
    if 'A' as u8 <= b && b <= 'Z' as u8 {
        (b + 32) as u8
    } else if ('a' as u8 <= b && b <= 'z' as u8) || ('0' as u8 <= b && b <= '9' as u8)
        || is_name_symbol(b) {
        b
    } else {
        0
    }
}

/// Whether `name` can be a header name at all: between 1 and 65535 bytes, each
/// of them a name byte.
pub open spec fn is_header_name(name: Seq<u8>) -> bool {
    &&& 1 <= name.len() <= 65535
    &&& forall|i: int| 0 <= i < name.len() ==> name_byte(#[trigger] name[i]) != 0
}

/// The key under which a header called `name` is stored, if `name` is a header
/// name: its bytes with the letters lowered.
pub open spec fn canonical_name(name: Seq<u8>) -> Option<Seq<u8>> {
    if is_header_name(name) {
        Some(name.map_values(|b: u8| name_byte(b)))
    } else {
        None
    }
}

/// Whether `value` can be stored as a header value: no control byte other
/// than a horizontal tab.
pub open spec fn is_header_value(value: Seq<u8>) -> bool {
    forall|i: int| 0 <= i < value.len() ==> {
        let b = #[trigger] value[i];
        (b >= 32 && b != 127) || b == 9
    }
}

/// The contents of a map that holds no header.
pub open spec fn no_headers() -> Headers {
    Map::empty()
}

/// The first value stored under the key `k`, if there is one.
pub open spec fn first_value(entries: Headers, k: Seq<u8>) -> Option<Seq<u8>> {
    if entries.contains_key(k) {
        Some(entries[k][0])
    } else {
        None
    }
}

/// The value that a lookup of `name` finds: the first value of the header
/// stored under the canonical form of `name`.
pub open spec fn lookup(entries: Headers, name: Seq<u8>) -> Option<Seq<u8>> {
    match canonical_name(name) {
        Some(k) => first_value(entries, k),
        None => None,
    }
}

/// `HeaderMap::new`.
///
/// Claims that a map created this way holds no header.
#[verifier::external_body]
pub(crate) fn header_map_new() -> (map: HeaderMap)
    ensures
        header_entries(map) == no_headers(),
{
    HeaderMap::new()
}

/// `HeaderMap::get`, with the name parsed by `HeaderName::from_bytes` and the
/// value copied out through `HeaderValue::as_bytes`.
///
/// Claims that the lookup is by the canonical form of `name`, that it yields
/// the first of the values stored under it, and that a `name` which is no
/// header name finds nothing.
#[verifier::external_body]
pub(crate) fn header_get(m: &HeaderMap, name: &[u8]) -> (value: Option<Vec<u8>>)
    ensures
        value.is_some() == lookup(header_entries(*m), name@).is_some(),
        value.is_some() ==> value.unwrap()@ == lookup(header_entries(*m), name@).unwrap(),
{
    match HeaderName::from_bytes(name) {
        Ok(key) => m.get(&key).map(|v| v.as_bytes().to_vec()),
        Err(_) => None,
    }
}

/// `HeaderMap::remove`, with the name parsed by `HeaderName::from_bytes`.
///
/// Claims that every value stored under the canonical form of `name` leaves
/// the map, that nothing else changes, and that a `name` which is no header
/// name leaves the map as it was.
#[verifier::external_body]
pub(crate) fn header_remove(m: &mut HeaderMap, name: &[u8])
    ensures
        header_entries(*final(m)) == match canonical_name(name@) {
            Some(k) => header_entries(*old(m)).remove(k),
            None => header_entries(*old(m)),
        },
{
    match HeaderName::from_bytes(name) {
        Ok(key) => m.remove(&key),
        Err(_) => {},
    }
}

/// `HeaderMap::insert`, with the name parsed by `HeaderName::from_bytes` and
/// the value by `HeaderValue::from_bytes`.
///
/// Claims that the call stores `value` as the only value under the canonical
/// form of `name`, replacing whatever was stored there, exactly when `name` is
/// a header name and `value` a header value; otherwise the map is unchanged
/// and the result is `false`.
#[verifier::external_body]
pub(crate) fn header_insert(m: &mut HeaderMap, name: &[u8], value: &[u8]) -> (stored: bool)
    ensures
        stored == (is_header_name(name@) && is_header_value(value@)),
        stored ==> header_entries(*final(m)) == header_entries(*old(m)).insert(
            canonical_name(name@).unwrap(),
            seq![value@],
        ),
        !stored ==> header_entries(*final(m)) == header_entries(*old(m)),
{
    match (HeaderName::from_bytes(name), HeaderValue::from_bytes(value)) {
        (Ok(key), Ok(val)) => {
            m.insert(key, val);
            true
        },
        _ => false,
    }
}

} // verus!
