//! The header policy of the proxy.
//!
//! Headers that belong to one connection only are taken out of a header set
//! before it crosses the proxy, in either direction. A request on its way to
//! the backend is also told for whom it is forwarded, and always carries a
//! `User-Agent`.
//!
//! Where the policy looks at the value of a header it looks at the first
//! value stored under that name, which is what `HeaderMap::get` yields.

use crate::header_map::{
    canonical_name, first_value, header_entries, header_get, header_insert, header_remove,
    is_header_value, Headers,
};
use crate::names::{
    connection, is_hop_by_hop, lemma_names_canonical, lemma_names_distinct, te, trailers,
    user_agent, x_forwarded_for,
};
use crate::tokens::{bytes_eq, split_tokens, tokens, views};
use actix_web::http::header::HeaderMap;
use vstd::prelude::*;
use vstd::string::*;

verus! {

/// Whether the `TE` header passes through the proxy: its first value is
/// exactly `trailers`.
pub open spec fn te_passes(entries: Headers) -> bool {
    first_value(entries, te()) == Some(trailers())
}

/// Whether one of the first `n` tokens in `list` is a name for the header
/// stored under `k`.
pub open spec fn names_header(list: Seq<Seq<u8>>, n: int, k: Seq<u8>) -> bool {
    exists|j: int| 0 <= j < n && j < list.len() && canonical_name(#[trigger] list[j]) == Some(k)
}

/// Whether the `Connection` header lists the header stored under `k`.
pub open spec fn is_listed(entries: Headers, k: Seq<u8>) -> bool {
    match first_value(entries, connection()) {
        Some(value) => names_header(tokens(value), tokens(value).len() as int, k),
        None => false,
    }
}

/// Whether the hop-by-hop rule takes the header stored under `k` out.
pub open spec fn is_ended(entries: Headers, k: Seq<u8>) -> bool {
    is_hop_by_hop(k) && !(k == te() && te_passes(entries))
}

/// The header set without the headers that its `Connection` header lists.
pub open spec fn without_listed(entries: Headers) -> Headers {
    entries.remove_keys(Set::new(|k: Seq<u8>| is_listed(entries, k)))
}

/// The header set without its hop-by-hop headers; `TE: trailers` stays.
pub open spec fn without_hop_by_hop(entries: Headers) -> Headers {
    entries.remove_keys(Set::new(|k: Seq<u8>| is_ended(entries, k)))
}

/// The header set that may cross the proxy: every header of `entries` that is
/// neither hop-by-hop nor listed by `Connection`, with its values as they
/// were.
pub open spec fn sanitized(entries: Headers) -> Headers {
    entries.remove_keys(Set::new(|k: Seq<u8>| is_ended(entries, k) || is_listed(entries, k)))
}

/// The value of `X-Forwarded-For` for the next hop: what the header said so
/// far, then the address of the peer, with `", "` between the two if both are
/// there.
pub open spec fn forwarded_for(existing: Option<Seq<u8>>, peer_ip: Option<Seq<u8>>) -> Seq<u8> {
    let so_far = match existing {
        Some(value) => value,
        None => Seq::empty(),
    };
    match peer_ip {
        Some(ip) => if so_far.len() > 0 {
            so_far + seq![',' as u8, ' ' as u8] + ip
        } else {
            ip
        },
        None => so_far,
    }
}

/// The header set with `User-Agent` set to the empty value unless the set
/// has that header already.
pub open spec fn with_user_agent(entries: Headers) -> Headers {
    if entries.contains_key(user_agent()) {
        entries
    } else {
        entries.insert(user_agent(), seq![Seq::<u8>::empty()])
    }
}

/// The value that `X-Forwarded-For` gets when `entries` goes to the backend
/// on behalf of `peer_ip`.
pub open spec fn next_forwarded_for(
    entries: Headers,
    peer_ip: Option<Seq<u8>>,
) -> Seq<u8> {
    forwarded_for(first_value(sanitized(entries), x_forwarded_for()), peer_ip)
}

/// The header set of the upstream request: the sanitized set, with
/// `X-Forwarded-For` replaced by its next value and `User-Agent` present.
pub open spec fn request_headers(
    entries: Headers,
    peer_ip: Option<Seq<u8>>,
) -> Headers {
    with_user_agent(
        sanitized(entries).insert(x_forwarded_for(), seq![next_forwarded_for(entries, peer_ip)]),
    )
}

/// Removing the listed headers and then the hop-by-hop ones gives the
/// sanitized set.
pub proof fn lemma_sanitized_in_two_steps(entries: Headers)
    ensures
        without_hop_by_hop(without_listed(entries)) == sanitized(entries),
{
    let mid = without_listed(entries);
    if mid.contains_key(te()) {
        assert(mid[te()] == entries[te()]);
    }
    assert(te_passes(mid) ==> te_passes(entries));
    assert forall|k: Seq<u8>| #[trigger]
        without_hop_by_hop(mid).contains_key(k) == sanitized(entries).contains_key(k) by {
        if k == te() && entries.contains_key(k) && !is_listed(entries, k) {
            assert(mid.contains_key(te()));
            assert(te_passes(mid) == te_passes(entries));
        }
    }
    assert(without_hop_by_hop(mid) =~= sanitized(entries));
}

/// The error of a request whose `X-Forwarded-For` value cannot be stored in a
/// header: it holds a control byte.
#[derive(Debug, PartialEq, Eq)]
pub struct InvalidForwardedFor;

/// Removes every header that the `Connection` header lists.
///
/// The value of `Connection` is split at its commas, each piece is freed of
/// the blanks around it, and the header that a piece names is removed. The
/// `Connection` header itself stays unless it lists itself.
pub fn remove_connection_headers(headers: &mut HeaderMap)
    ensures
        header_entries(*final(headers)) == without_listed(header_entries(*old(headers))),
{
    let ghost before = header_entries(*headers);
    proof {
        lemma_names_canonical();
    }
    match header_get(headers, "connection".as_bytes()) {
        Some(value) => {
            let list = split_tokens(value.as_slice());
            let ghost spec_list = tokens(value@);
            let mut i: usize = 0;
            assert(before.remove_keys(Set::new(|k: Seq<u8>| names_header(spec_list, 0, k)))
                =~= before);
            while i < list.len()
                invariant
                    i <= list@.len(),
                    views(list@) == spec_list,
                    header_entries(*headers) == before.remove_keys(
                        Set::new(|k: Seq<u8>| names_header(spec_list, i as int, k)),
                    ),
                decreases list@.len() - i,
            {
                let ghost now = header_entries(*headers);
                header_remove(headers, list[i].as_slice());
                proof {
                    assert(list@[i as int]@ == spec_list[i as int]);
                    let next = before.remove_keys(
                        Set::new(|k: Seq<u8>| names_header(spec_list, i + 1, k)),
                    );
                    assert forall|k: Seq<u8>| names_header(spec_list, i + 1, k) == (names_header(
                        spec_list,
                        i as int,
                        k,
                    ) || canonical_name(spec_list[i as int]) == Some(k)) by {
                        if names_header(spec_list, i + 1, k) {
                            let j = choose|j: int|
                                0 <= j < i + 1 && j < spec_list.len() && canonical_name(
                                    #[trigger] spec_list[j],
                                ) == Some(k);
                            if j < i {
                                assert(names_header(spec_list, i as int, k));
                            }
                        }
                        if names_header(spec_list, i as int, k) {
                            let j = choose|j: int|
                                0 <= j < i && j < spec_list.len() && canonical_name(
                                    #[trigger] spec_list[j],
                                ) == Some(k);
                            assert(0 <= j < i + 1);
                        }
                    }
                    assert(header_entries(*headers) =~= next);
                }
                i += 1;
            }
            assert(header_entries(*headers) =~= without_listed(before));
        },
        None => {
            assert(header_entries(*headers) =~= without_listed(before));
        },
    }
}

/// Removes the hop-by-hop headers: `Connection`, `Proxy-Connection`,
/// `Keep-Alive`, `Proxy-Authenticate`, `Proxy-Authorization`, `TE`, `Trailer`,
/// `Transfer-Encoding` and `Upgrade`. A `TE` header whose value is `trailers`
/// stays.
pub fn remove_hop_by_hop(headers: &mut HeaderMap)
    ensures
        header_entries(*final(headers)) == without_hop_by_hop(header_entries(*old(headers))),
{
    let ghost before = header_entries(*headers);
    proof {
        lemma_names_canonical();
        lemma_names_distinct();
    }
    let keep_te = match header_get(headers, "te".as_bytes()) {
        Some(value) => bytes_eq(value.as_slice(), "trailers".as_bytes()),
        None => false,
    };
    assert(keep_te == te_passes(before));
    header_remove(headers, "connection".as_bytes());
    header_remove(headers, "proxy-connection".as_bytes());
    header_remove(headers, "keep-alive".as_bytes());
    header_remove(headers, "proxy-authenticate".as_bytes());
    header_remove(headers, "proxy-authorization".as_bytes());
    if !keep_te {
        header_remove(headers, "te".as_bytes());
    }
    header_remove(headers, "trailer".as_bytes());
    header_remove(headers, "transfer-encoding".as_bytes());
    header_remove(headers, "upgrade".as_bytes());
    assert(header_entries(*headers) =~= without_hop_by_hop(before));
}

/// Sanitizes a header set in place, as both directions of the proxy need it:
/// afterwards it holds the headers that are neither hop-by-hop nor listed by
/// `Connection`, each with its values unchanged.
pub fn sanitize(headers: &mut HeaderMap)
    ensures
        header_entries(*final(headers)) == sanitized(header_entries(*old(headers))),
{
    proof {
        lemma_sanitized_in_two_steps(header_entries(*headers));
    }
    remove_connection_headers(headers);
    remove_hop_by_hop(headers);
}

/// Computes the `X-Forwarded-For` value for the next hop from the value that
/// `headers` holds, if any, and the address of the peer, if known.
pub fn x_forwarded_for_value(headers: &HeaderMap, peer_ip: Option<&str>) -> (value: Vec<u8>)
    ensures
        value@ == forwarded_for(
            first_value(header_entries(*headers), x_forwarded_for()),
            peer_view(peer_ip),
        ),
{
    proof {
        lemma_names_canonical();
    }
    let mut result: Vec<u8> = match header_get(headers, "x-forwarded-for".as_bytes()) {
        Some(value) => value,
        None => Vec::new(),
    };
    match peer_ip {
        Some(text) => {
            let ip = text.as_bytes();
            let ghost so_far = result@;
            if result.len() > 0 {
                result.push(',' as u8);
                result.push(' ' as u8);
            }
            let ghost joined = result@;
            let mut i: usize = 0;
            while i < ip.len()
                invariant
                    i <= ip@.len(),
                    result@ == joined + ip@.take(i as int),
                decreases ip@.len() - i,
            {
                result.push(ip[i]);
                assert(ip@.take(i + 1) =~= ip@.take(i as int).push(ip@[i as int]));
                i += 1;
            }
            assert(ip@.take(i as int) =~= ip@);
            assert(so_far.len() > 0 ==> joined =~= so_far + seq![',' as u8, ' ' as u8]);
            assert(so_far.len() == 0 ==> joined + ip@ =~= ip@);
        },
        None => {},
    }
    result
}

/// Sanitizes the header set of a request that goes to the backend on behalf
/// of `peer_ip`: hop-by-hop and listed headers leave, `X-Forwarded-For` is
/// set to its next value, and `User-Agent` is set to the empty value if the
/// request had none.
///
/// Fails, with the set sanitized and otherwise untouched, exactly when the
/// next `X-Forwarded-For` value is no header value.
pub fn sanitize_request(
    headers: &mut HeaderMap,
    peer_ip: Option<&str>,
) -> (result: Result<(), InvalidForwardedFor>)
    ensures
        result.is_ok() == is_header_value(
            next_forwarded_for(header_entries(*old(headers)), peer_view(peer_ip)),
        ),
        result.is_ok() ==> header_entries(*final(headers)) == request_headers(
            header_entries(*old(headers)),
            peer_view(peer_ip),
        ),
        result.is_err() ==> header_entries(*final(headers)) == sanitized(
            header_entries(*old(headers)),
        ),
{
    proof {
        lemma_names_canonical();
    }
    sanitize(headers);
    let value = x_forwarded_for_value(headers, peer_ip);
    if !header_insert(headers, "x-forwarded-for".as_bytes(), value.as_slice()) {
        return Err(InvalidForwardedFor);
    }
    if header_get(headers, "user-agent".as_bytes()).is_none() {
        let empty: Vec<u8> = Vec::new();
        let stored = header_insert(headers, "user-agent".as_bytes(), empty.as_slice());
        assert(stored);
    }
    Ok(())
}

/// The address of the peer as the bytes of its text.
pub open spec fn peer_view(peer_ip: Option<&str>) -> Option<Seq<u8>> {
    match peer_ip {
        Some(ip) => Some(ip.spec_bytes()),
        None => None,
    }
}

/// A sanitized header set holds no `Connection` header, no header that the
/// `Connection` header listed before sanitizing, and of the hop-by-hop
/// headers at most a `TE` header whose value is `trailers`.
pub proof fn sanitized_holds_no_connection_scoped_header(entries: Headers)
    ensures
        !sanitized(entries).contains_key(connection()),
        forall|k: Seq<u8>| is_listed(entries, k) ==> !sanitized(entries).contains_key(k),
        forall|k: Seq<u8>| #[trigger]
            sanitized(entries).contains_key(k) && is_hop_by_hop(k) ==> k == te() && first_value(
                sanitized(entries),
                k,
            ) == Some(trailers()),
{
    lemma_names_distinct();
}

/// A header that is neither hop-by-hop nor listed by `Connection` crosses the
/// proxy with its values unchanged, and nothing is added.
pub proof fn sanitized_keeps_the_rest(entries: Headers)
    ensures
        forall|k: Seq<u8>| #[trigger]
            sanitized(entries).contains_key(k) ==> entries.contains_key(k) && sanitized(entries)[k]
                == entries[k],
        forall|k: Seq<u8>|
            entries.contains_key(k) && !is_hop_by_hop(k) && !is_listed(entries, k)
                ==> #[trigger] sanitized(entries).contains_key(k),
{
}

/// A header set without a hop-by-hop header is left as it is.
pub proof fn sanitized_leaves_other_sets_unchanged(entries: Headers)
    requires
        forall|k: Seq<u8>| #[trigger] entries.contains_key(k) ==> !is_hop_by_hop(k),
    ensures
        sanitized(entries) == entries,
{
    assert(is_hop_by_hop(connection()));
    assert(sanitized(entries) =~= entries);
}

/// Sanitizing is idempotent: a sanitized header set is left as it is.
pub proof fn sanitize_is_idempotent(entries: Headers)
    ensures
        sanitized(sanitized(entries)) == sanitized(entries),
{
    lemma_names_distinct();
    let once = sanitized(entries);
    assert(!once.contains_key(connection()));
    assert forall|k: Seq<u8>| once.contains_key(k) implies !is_ended(once, k) && !is_listed(
        once,
        k,
    ) by {
        if is_hop_by_hop(k) {
            assert(k == te() && te_passes(entries));
            assert(once[te()] == entries[te()]);
        }
    }
    assert(sanitized(once) =~= once);
}

/// The header set of an upstream request always says for whom the request is
/// forwarded, in a single value, and always has a `User-Agent`; the
/// `User-Agent` is the empty value if the sanitized request had none, and
/// the request's own otherwise.
pub proof fn request_headers_carry_forwarded_for_and_user_agent(
    entries: Headers,
    peer_ip: Option<Seq<u8>>,
)
    ensures
        request_headers(entries, peer_ip).contains_key(x_forwarded_for()),
        request_headers(entries, peer_ip)[x_forwarded_for()] == seq![
            next_forwarded_for(entries, peer_ip),
        ],
        request_headers(entries, peer_ip).contains_key(user_agent()),
        request_headers(entries, peer_ip)[user_agent()] == if sanitized(entries).contains_key(
            user_agent(),
        ) {
            entries[user_agent()]
        } else {
            seq![Seq::<u8>::empty()]
        },
{
    lemma_names_distinct();
}

/// Without a peer address the request direction is idempotent as well.
pub proof fn request_headers_without_peer_are_idempotent(entries: Headers)
    ensures
        request_headers(request_headers(entries, None), None) == request_headers(entries, None),
{
    lemma_names_distinct();
    let clean = sanitized(entries);
    let value = next_forwarded_for(entries, None);
    let once = request_headers(entries, None);
    assert(!clean.contains_key(connection()));
    assert(!once.contains_key(connection()));
    assert forall|k: Seq<u8>| once.contains_key(k) implies !is_ended(once, k) && !is_listed(
        once,
        k,
    ) by {
        if is_hop_by_hop(k) {
            assert(clean.contains_key(k));
            assert(k == te() && te_passes(entries));
            assert(once[te()] == entries[te()]);
        }
    }
    assert(sanitized(once) =~= once);
    assert(first_value(once, x_forwarded_for()) == Some(value));
    assert(next_forwarded_for(once, None) == value);
    assert(once.insert(x_forwarded_for(), seq![value]) =~= once);
}

} // verus!
