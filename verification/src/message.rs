//! The requests and responses that pass through the proxy, as plain data.

use crate::header_map::{header_entries, Headers};
use actix_web::http::header::HeaderMap;
use std::time::Duration;
use vstd::prelude::*;
use vstd::utf8::encode_utf8;

verus! {

/// A request as the proxy received it.
#[derive(Debug)]
pub struct InboundRequest {
    pub method: String,
    pub path: String,
    /// The query string without its `?`, if the request had one.
    pub query: Option<String>,
    pub headers: HeaderMap,
    pub body: Vec<u8>,
    /// The IP address of the immediate peer, in text form, if known.
    pub peer_ip: Option<String>,
}

/// What an [`InboundRequest`] holds.
pub struct InboundRequestView {
    pub method: Seq<char>,
    pub path: Seq<char>,
    pub query: Option<Seq<char>>,
    pub headers: Headers,
    pub body: Seq<u8>,
    pub peer_ip: Option<Seq<u8>>,
}

impl View for InboundRequest {
    type V = InboundRequestView;

    open spec fn view(&self) -> InboundRequestView {
        InboundRequestView {
            method: self.method@,
            path: self.path@,
            query: match self.query {
                Some(q) => Some(q@),
                None => None,
            },
            headers: header_entries(self.headers),
            body: self.body@,
            peer_ip: match self.peer_ip {
                Some(ip) => Some(encode_utf8(ip@)),
                None => None,
            },
        }
    }
}

/// The request that the proxy sends to the backend.
#[derive(Debug)]
pub struct UpstreamRequest {
    pub method: String,
    pub uri: String,
    pub headers: HeaderMap,
    pub body: Vec<u8>,
    /// How long the backend may take to answer.
    pub timeout: Duration,
}

/// What an [`UpstreamRequest`] holds.
pub struct UpstreamRequestView {
    pub method: Seq<char>,
    pub uri: Seq<char>,
    pub headers: Headers,
    pub body: Seq<u8>,
    pub timeout: Duration,
}

impl View for UpstreamRequest {
    type V = UpstreamRequestView;

    open spec fn view(&self) -> UpstreamRequestView {
        UpstreamRequestView {
            method: self.method@,
            uri: self.uri@,
            headers: header_entries(self.headers),
            body: self.body@,
            timeout: self.timeout,
        }
    }
}

/// A response, either as the backend gave it or as the client gets it.
#[derive(Debug)]
pub struct Response {
    pub status: u16,
    pub headers: HeaderMap,
    pub body: Vec<u8>,
}

/// What a [`Response`] holds.
pub struct ResponseView {
    pub status: u16,
    pub headers: Headers,
    pub body: Seq<u8>,
}

impl View for Response {
    type V = ResponseView;

    open spec fn view(&self) -> ResponseView {
        ResponseView {
            status: self.status,
            headers: header_entries(self.headers),
            body: self.body@,
        }
    }
}

/// Why a request did not get an answer from the backend.
#[derive(Clone, Copy, Debug, PartialEq, Eq)]
pub enum ForwardFailure {
    /// The upstream request could not be built.
    Request,
    /// Connecting to the backend took too long.
    ConnectTimeout,
    /// The backend could not be reached.
    Connect,
    /// The backend did not answer within the time limit.
    Timeout,
    /// Sending the request or receiving the response failed.
    Transport,
}

} // verus!
