//! The forwarder: from an inbound request to the request for the backend, and
//! from what the backend did to the response for the client.

use crate::clock::{duration_from_secs, seconds};
use crate::header_map::{header_map_new, is_header_value, no_headers};
use crate::message::{
    ForwardFailure, InboundRequest, InboundRequestView, Response, ResponseView, UpstreamRequest,
    UpstreamRequestView,
};
use crate::sanitize::{next_forwarded_for, request_headers, sanitize, sanitize_request, sanitized};
use std::time::Duration;
use vstd::prelude::*;
use vstd::string::*;

verus! {

/// The number of seconds a backend may take unless the caller says otherwise.
pub const DEFAULT_TIMEOUT_SECS: u64 = 60;

/// The status of a response to a request that the proxy cannot work on.
pub const BAD_REQUEST: u16 = 400;

/// The status of a response that reports a failure of the proxy.
pub const INTERNAL_SERVER_ERROR: u16 = 500;

/// The status of a response that reports that the backend was not reached in
/// time.
pub const GATEWAY_TIMEOUT: u16 = 504;

/// A forwarder for one backend.
pub struct ReverseProxy<'a> {
    forward_url: &'a str,
    timeout: Duration,
}

/// The address of the upstream resource: the backend's URL, then the path,
/// then `?` and the query string if the request had one. Nothing is encoded
/// anew.
pub open spec fn upstream_uri(
    url: Seq<char>,
    path: Seq<char>,
    query: Option<Seq<char>>,
) -> Seq<char> {
    match query {
        Some(q) => url + path + seq!['?'] + q,
        None => url + path,
    }
}

/// The status of the response that reports `failure` to the client.
pub open spec fn failure_status(failure: ForwardFailure) -> u16 {
    match failure {
        ForwardFailure::ConnectTimeout => GATEWAY_TIMEOUT,
        ForwardFailure::Connect => BAD_REQUEST,
        _ => INTERNAL_SERVER_ERROR,
    }
}

/// The response that the client gets for what came of the upstream request:
/// the backend's response with its headers sanitized, or a response that
/// holds nothing but the status of the failure.
pub open spec fn client_view(outcome: Result<ResponseView, ForwardFailure>) -> ResponseView {
    match outcome {
        Ok(upstream) => ResponseView {
            status: upstream.status,
            headers: sanitized(upstream.headers),
            body: upstream.body,
        },
        Err(failure) => bare(failure_status(failure)),
    }
}

/// What a response holds that has a status and nothing else.
pub open spec fn bare(status: u16) -> ResponseView {
    ResponseView { status, headers: no_headers(), body: Seq::empty() }
}

/// A response that holds a status and nothing else.
pub fn bare_response(status: u16) -> (response: Response)
    ensures
        response@ == bare(status),
{
    Response { status, headers: header_map_new(), body: Vec::new() }
}

impl<'a> ReverseProxy<'a> {
    /// The URL of the backend.
    pub closed spec fn url(&self) -> Seq<char> {
        self.forward_url@
    }

    /// The time the backend may take.
    pub closed spec fn limit(&self) -> Duration {
        self.timeout
    }

    /// A forwarder for the backend at `forward_url`, with the default time
    /// limit.
    pub fn new(forward_url: &'a str) -> (proxy: ReverseProxy<'a>)
        ensures
            proxy.url() == forward_url@,
            proxy.limit() == seconds(DEFAULT_TIMEOUT_SECS),
    {
        ReverseProxy { forward_url, timeout: duration_from_secs(DEFAULT_TIMEOUT_SECS) }
    }

    /// The same forwarder with `duration` as its time limit.
    pub fn timeout(self, duration: Duration) -> (proxy: ReverseProxy<'a>)
        ensures
            proxy.url() == self.url(),
            proxy.limit() == duration,
    {
        ReverseProxy { forward_url: self.forward_url, timeout: duration }
    }

    /// The URL of the backend.
    pub fn forward_url(&self) -> (url: &'a str)
        ensures
            url@ == self.url(),
    {
        self.forward_url
    }

    /// The time the backend may take.
    pub fn time_limit(&self) -> (limit: Duration)
        ensures
            limit == self.limit(),
    {
        self.timeout
    }

    /// The address to which a request for `path` and `query` is forwarded.
    pub fn forward_uri(&self, path: &str, query: Option<&str>) -> (uri: String)
        ensures
            uri@ == upstream_uri(
                self.url(),
                path@,
                match query {
                    Some(q) => Some(q@),
                    None => None,
                },
            ),
    {
        let mut uri = String::from_str(self.forward_url);
        uri.append(path);
        match query {
            Some(q) => {
                proof {
                    reveal_strlit("?");
                }
                uri.append("?");
                uri.append(q);
                assert("?"@ =~= seq!['?']);
            },
            None => {},
        }
        uri
    }

    /// Builds the request for the backend: method and body as they came, the
    /// address from the backend's URL and the request's path and query, the
    /// headers sanitized for the request direction, and the time limit of
    /// this forwarder.
    ///
    /// Fails with `ForwardFailure::Request` exactly when the next
    /// `X-Forwarded-For` value is no header value.
    pub fn upstream_request(
        &self,
        request: InboundRequest,
    ) -> (result: Result<UpstreamRequest, ForwardFailure>)
        ensures
            result.is_ok() == is_header_value(
                next_forwarded_for(request@.headers, request@.peer_ip),
            ),
            result matches Ok(upstream) ==> upstream@ == self.upstream_view(request@),
            result matches Err(failure) ==> failure == ForwardFailure::Request,
    {
        let uri = match &request.query {
            Some(q) => self.forward_uri(request.path.as_str(), Some(q.as_str())),
            None => self.forward_uri(request.path.as_str(), None),
        };
        let mut headers = request.headers;
        let sanitized = match &request.peer_ip {
            Some(ip) => sanitize_request(&mut headers, Some(ip.as_str())),
            None => sanitize_request(&mut headers, None),
        };
        match sanitized {
            Ok(()) => Ok(
                UpstreamRequest {
                    method: request.method,
                    uri,
                    headers,
                    body: request.body,
                    timeout: self.timeout,
                },
            ),
            Err(_) => Err(ForwardFailure::Request),
        }
    }

    /// What the request for the backend holds, given what the inbound request
    /// held.
    pub open spec fn upstream_view(&self, request: InboundRequestView) -> UpstreamRequestView {
        UpstreamRequestView {
            method: request.method,
            uri: upstream_uri(self.url(), request.path, request.query),
            headers: request_headers(request.headers, request.peer_ip),
            body: request.body,
            timeout: self.limit(),
        }
    }
}

/// Turns what came of the upstream request into the response for the client.
///
/// A response of the backend keeps its status and body, and its headers are
/// sanitized. A failure becomes a response without headers or body whose
/// status is `504` if connecting timed out, `400` if the backend could not be
/// reached, and `500` otherwise.
pub fn client_response(outcome: Result<Response, ForwardFailure>) -> (response: Response)
    ensures
        response@ == client_view(
            match outcome {
                Ok(upstream) => Ok(upstream@),
                Err(failure) => Err(failure),
            },
        ),
{
    match outcome {
        Ok(upstream) => {
            let mut headers = upstream.headers;
            sanitize(&mut headers);
            Response { status: upstream.status, headers, body: upstream.body }
        },
        Err(failure) => {
            let status: u16 = match failure {
                ForwardFailure::ConnectTimeout => GATEWAY_TIMEOUT,
                ForwardFailure::Connect => BAD_REQUEST,
                _ => INTERNAL_SERVER_ERROR,
            };
            bare_response(status)
        },
    }
}

/// Whatever the failure, the client gets an error response and no detail:
/// a status of the client-error or server-error class, no header and an
/// empty body. A backend that did not answer in time gives status `500`.
pub proof fn failure_gives_bare_error_response(failure: ForwardFailure)
    ensures
        client_view(Err(failure)) == bare(failure_status(failure)),
        400 <= client_view(Err(failure)).status <= 599,
        client_view(Err(failure)).body.len() == 0,
        client_view(Err(failure)).headers == no_headers(),
        client_view(Err(ForwardFailure::Timeout)).status == INTERNAL_SERVER_ERROR,
{
}

/// A response of the backend reaches the client with its status and body
/// unchanged.
pub proof fn response_keeps_status_and_body(upstream: ResponseView)
    ensures
        client_view(Ok(upstream)).status == upstream.status,
        client_view(Ok(upstream)).body == upstream.body,
        client_view(Ok(upstream)).headers == sanitized(upstream.headers),
{
}

} // verus!
