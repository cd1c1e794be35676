//! The header names that the proxy treats specially.

use crate::header_map::{canonical_name, is_header_name, name_byte};
use vstd::prelude::*;
use vstd::string::*;

verus! {

pub open spec fn connection() -> Seq<u8> {
    "connection".spec_bytes()
}

pub open spec fn proxy_connection() -> Seq<u8> {
    "proxy-connection".spec_bytes()
}

pub open spec fn keep_alive() -> Seq<u8> {
    "keep-alive".spec_bytes()
}

pub open spec fn proxy_authenticate() -> Seq<u8> {
    "proxy-authenticate".spec_bytes()
}

pub open spec fn proxy_authorization() -> Seq<u8> {
    "proxy-authorization".spec_bytes()
}

pub open spec fn te() -> Seq<u8> {
    "te".spec_bytes()
}

pub open spec fn trailer() -> Seq<u8> {
    "trailer".spec_bytes()
}

pub open spec fn transfer_encoding() -> Seq<u8> {
    "transfer-encoding".spec_bytes()
}

pub open spec fn upgrade() -> Seq<u8> {
    "upgrade".spec_bytes()
}

pub open spec fn x_forwarded_for() -> Seq<u8> {
    "x-forwarded-for".spec_bytes()
}

pub open spec fn user_agent() -> Seq<u8> {
    "user-agent".spec_bytes()
}

pub open spec fn host() -> Seq<u8> {
    "host".spec_bytes()
}

/// The one value with which a `TE` header passes through the proxy.
pub open spec fn trailers() -> Seq<u8> {
    "trailers".spec_bytes()
}

/// Whether `k` names a header that is meaningful for a single connection
/// only.
pub open spec fn is_hop_by_hop(k: Seq<u8>) -> bool {
    k == connection() || k == proxy_connection() || k == keep_alive() || k == proxy_authenticate()
        || k == proxy_authorization() || k == te() || k == trailer() || k == transfer_encoding()
        || k == upgrade()
}

/// A lower-case letter or a hyphen.
pub open spec fn is_plain(c: char) -> bool {
    ('a' <= c && c <= 'z') || c == '-'
}

/// A string of lower-case letters and hyphens is stored as a header name
/// under its own bytes.
pub proof fn lemma_plain_name(s: &str)
    requires
        1 <= s@.len() <= 65535,
        forall|i: int| 0 <= i < s@.len() ==> is_plain(#[trigger] s@[i]),
    ensures
        s.spec_bytes().len() == s@.len(),
        forall|i: int| 0 <= i < s@.len() ==> #[trigger] s.spec_bytes()[i] == s@[i] as u8,
        canonical_name(s.spec_bytes()) == Some(s.spec_bytes()),
{
    broadcast use is_ascii_spec_bytes;
    assert(is_ascii(s));
    let b = s.spec_bytes();
    assert forall|i: int| 0 <= i < b.len() implies name_byte(#[trigger] b[i]) == b[i] && b[i]
        != 0 by {
        assert(is_plain(s@[i]));
    }
    assert(is_header_name(b));
    assert(b.map_values(|x: u8| name_byte(x)) =~= b);
}

/// Each special name is stored under its own bytes.
pub proof fn lemma_names_canonical()
    ensures
        canonical_name(connection()) == Some(connection()),
        canonical_name(proxy_connection()) == Some(proxy_connection()),
        canonical_name(keep_alive()) == Some(keep_alive()),
        canonical_name(proxy_authenticate()) == Some(proxy_authenticate()),
        canonical_name(proxy_authorization()) == Some(proxy_authorization()),
        canonical_name(te()) == Some(te()),
        canonical_name(trailer()) == Some(trailer()),
        canonical_name(transfer_encoding()) == Some(transfer_encoding()),
        canonical_name(upgrade()) == Some(upgrade()),
        canonical_name(x_forwarded_for()) == Some(x_forwarded_for()),
        canonical_name(user_agent()) == Some(user_agent()),
        canonical_name(host()) == Some(host()),
{
    reveal_strlit("connection");
    lemma_plain_name("connection");
    reveal_strlit("proxy-connection");
    lemma_plain_name("proxy-connection");
    reveal_strlit("keep-alive");
    lemma_plain_name("keep-alive");
    reveal_strlit("proxy-authenticate");
    lemma_plain_name("proxy-authenticate");
    reveal_strlit("proxy-authorization");
    lemma_plain_name("proxy-authorization");
    reveal_strlit("te");
    lemma_plain_name("te");
    reveal_strlit("trailer");
    lemma_plain_name("trailer");
    reveal_strlit("transfer-encoding");
    lemma_plain_name("transfer-encoding");
    reveal_strlit("upgrade");
    lemma_plain_name("upgrade");
    reveal_strlit("x-forwarded-for");
    lemma_plain_name("x-forwarded-for");
    reveal_strlit("user-agent");
    lemma_plain_name("user-agent");
    reveal_strlit("host");
    lemma_plain_name("host");
}

/// The special names differ from one another as far as the policy relies on
/// it: `te` is none of the other hop-by-hop names, and neither
/// `x-forwarded-for` nor `user-agent` is a hop-by-hop name or the other of the
/// two.
pub proof fn lemma_names_distinct()
    ensures
        te() != connection(),
        te() != proxy_connection(),
        te() != keep_alive(),
        te() != proxy_authenticate(),
        te() != proxy_authorization(),
        te() != trailer(),
        te() != transfer_encoding(),
        te() != upgrade(),
        !is_hop_by_hop(x_forwarded_for()),
        !is_hop_by_hop(user_agent()),
        x_forwarded_for() != user_agent(),
{
    reveal_strlit("connection");
    lemma_plain_name("connection");
    reveal_strlit("proxy-connection");
    lemma_plain_name("proxy-connection");
    reveal_strlit("keep-alive");
    lemma_plain_name("keep-alive");
    reveal_strlit("proxy-authenticate");
    lemma_plain_name("proxy-authenticate");
    reveal_strlit("proxy-authorization");
    lemma_plain_name("proxy-authorization");
    reveal_strlit("te");
    lemma_plain_name("te");
    reveal_strlit("trailer");
    lemma_plain_name("trailer");
    reveal_strlit("transfer-encoding");
    lemma_plain_name("transfer-encoding");
    reveal_strlit("upgrade");
    lemma_plain_name("upgrade");
    reveal_strlit("x-forwarded-for");
    lemma_plain_name("x-forwarded-for");
    reveal_strlit("user-agent");
    lemma_plain_name("user-agent");
    assert(user_agent()[0] == 'u' as u8);
    assert(connection()[0] == 'c' as u8);
    assert(keep_alive()[0] == 'k' as u8);
}

} // verus!
