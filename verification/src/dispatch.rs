//! The dispatcher: what happens to one request, decision by decision.
//!
//! A request is received, its host is resolved to a backend port, and the
//! request is forwarded to that backend. The functions here make the
//! decisions; looking a host up and talking to the backend is left to the
//! caller, who acts on each [`Step`] and comes back with the result.

use crate::clock::{duration_from_secs, seconds};
use crate::header_map::{first_value, header_get, is_header_value};
use crate::message::{
    ForwardFailure, InboundRequest, InboundRequestView, Response, ResponseView, UpstreamRequest,
    UpstreamRequestView,
};
use crate::names::{host, lemma_names_canonical};
use crate::reverse::{
    bare, bare_response, client_response, client_view, upstream_uri, ReverseProxy, BAD_REQUEST,
    INTERNAL_SERVER_ERROR,
};
use crate::sanitize::{next_forwarded_for, request_headers};
use vstd::prelude::*;
use vstd::string::*;

verus! {

/// The number of seconds a backend gets to answer a dispatched request.
pub const FORWARD_TIMEOUT_SECS: u64 = 1;

/// The answer of the routing table to the question which backend serves a
/// host.
#[derive(Clone, Copy, Debug, PartialEq, Eq)]
pub enum Resolution {
    /// The value stored for the host.
    Port(i32),
    /// The table has no entry for the host.
    NotFound,
    /// The table could not be asked.
    StoreError,
}

/// Where a request stands.
///
/// A request is received, then resolving; from there its resolution fails or
/// it is resolved and then forwarding; forwarding ends in forwarded or in a
/// failure. A request without a host is rejected before anything is resolved.
#[derive(Clone, Copy, Debug, PartialEq, Eq)]
pub enum State {
    /// The request has come in and nothing has been decided.
    Received,
    /// The request is waiting for the routing table.
    Resolving,
    /// The request named no host. Final.
    Rejected,
    /// No backend was found for the host. Final.
    ResolutionFailed,
    /// A backend was found for the host.
    Resolved,
    /// The request is on its way to the backend, or about to be.
    Forwarding,
    /// The backend answered. Final.
    Forwarded,
    /// The backend did not answer, or could not be asked. Final.
    ForwardFailed,
}

impl State {
    /// Whether a request in this state can be in state `next` one decision
    /// later.
    pub open spec fn leads_to(self, next: State) -> bool {
        match self {
            State::Received => next == State::Resolving || next == State::Rejected,
            State::Resolving => next == State::Resolved || next == State::ResolutionFailed,
            State::Resolved => next == State::Forwarding,
            State::Forwarding => next == State::Forwarded || next == State::ForwardFailed,
            _ => false,
        }
    }

    /// Whether the request is done with: its response is decided.
    pub open spec fn is_final(self) -> bool {
        self == State::Rejected || self == State::ResolutionFailed || self == State::Forwarded
            || self == State::ForwardFailed
    }
}

/// What the caller must do next, and with what.
#[derive(Debug)]
pub enum Step {
    /// Look `host` up in the routing table, then call [`resolved`] with
    /// `request` and the answer.
    Resolve { host: Vec<u8>, request: InboundRequest },
    /// Send `upstream` to the backend, then call [`completed`] with what came
    /// of it.
    Send { upstream: UpstreamRequest },
    /// Send `response` to the client. The request has reached `state`.
    Respond { state: State, response: Response },
}

/// What a [`Step`] holds.
pub enum StepView {
    Resolve { host: Seq<u8>, request: InboundRequestView },
    Send { upstream: UpstreamRequestView },
    Respond { state: State, response: ResponseView },
}

impl View for Step {
    type V = StepView;

    open spec fn view(&self) -> StepView {
        match *self {
            Step::Resolve { host, request } => StepView::Resolve { host: host@, request: request@ },
            Step::Send { upstream } => StepView::Send { upstream: upstream@ },
            Step::Respond { state, response } => StepView::Respond { state, response: response@ },
        }
    }
}

impl StepView {
    /// The state that the request is in once this step has been decided.
    pub open spec fn state(self) -> State {
        match self {
            StepView::Resolve { .. } => State::Resolving,
            StepView::Send { .. } => State::Forwarding,
            StepView::Respond { state, .. } => state,
        }
    }
}

/// The character for a single decimal digit.
pub open spec fn digit_char(d: nat) -> char {
    if d == 0 {
        '0'
    } else if d == 1 {
        '1'
    } else if d == 2 {
        '2'
    } else if d == 3 {
        '3'
    } else if d == 4 {
        '4'
    } else if d == 5 {
        '5'
    } else if d == 6 {
        '6'
    } else if d == 7 {
        '7'
    } else if d == 8 {
        '8'
    } else {
        '9'
    }
}

/// The decimal numeral of `n`, without leading zeros.
pub open spec fn decimal(n: nat) -> Seq<char>
    decreases n,
{
    if n < 10 {
        seq![digit_char(n)]
    } else {
        decimal(n / 10).push(digit_char(n % 10))
    }
}

/// The port that a routing table value stands for, if it is a port at all.
pub open spec fn port_of(value: i32) -> Option<u16> {
    if 1 <= value <= 65535 {
        Some(value as u16)
    } else {
        None
    }
}

/// The address of the backend that listens on `port` of this machine.
pub open spec fn backend_address(port: u16) -> Seq<char> {
    "http://127.0.0.1:"@ + decimal(port as nat)
}

fn digit(d: u16) -> (text: &'static str)
    requires
        d < 10,
    ensures
        text@ == seq![digit_char(d as nat)],
{
    proof {
        reveal_strlit("0");
        reveal_strlit("1");
        reveal_strlit("2");
        reveal_strlit("3");
        reveal_strlit("4");
        reveal_strlit("5");
        reveal_strlit("6");
        reveal_strlit("7");
        reveal_strlit("8");
        reveal_strlit("9");
    }
    let text = if d == 0 {
        "0"
    } else if d == 1 {
        "1"
    } else if d == 2 {
        "2"
    } else if d == 3 {
        "3"
    } else if d == 4 {
        "4"
    } else if d == 5 {
        "5"
    } else if d == 6 {
        "6"
    } else if d == 7 {
        "7"
    } else if d == 8 {
        "8"
    } else {
        "9"
    };
    assert(text@ =~= seq![digit_char(d as nat)]);
    text
}

/// Appends the decimal numeral of `n` to `text`.
pub fn push_decimal(text: &mut String, n: u16)
    ensures
        final(text)@ == old(text)@ + decimal(n as nat),
    decreases n,
{
    if n >= 10 {
        push_decimal(text, n / 10);
    }
    text.append(digit(n % 10));
    assert(old(text)@ + decimal(n as nat / 10).push(digit_char(n as nat % 10)) =~= old(text)@
        + decimal(n as nat / 10) + seq![digit_char(n as nat % 10)]);
}

/// Reads a routing table value as a port: a number from 1 to 65535.
pub fn backend_port(value: i32) -> (port: Option<u16>)
    ensures
        port == port_of(value),
{
    if 1 <= value && value <= 65535 {
        Some(value as u16)
    } else {
        None
    }
}

/// The address of the backend that listens on `port`:
/// `http://127.0.0.1:` and the port in decimal.
pub fn backend_url(port: u16) -> (url: String)
    ensures
        url@ == backend_address(port),
{
    let mut url = String::from_str("http://127.0.0.1:");
    push_decimal(&mut url, port);
    url
}

/// Whether the request for the backend can be built from `request`.
pub open spec fn can_forward(request: InboundRequestView) -> bool {
    is_header_value(next_forwarded_for(request.headers, request.peer_ip))
}

/// The request that goes to the backend on `port` for `request`: what a
/// forwarder for that backend builds, with the dispatcher's time limit.
pub open spec fn dispatched(request: InboundRequestView, port: u16) -> UpstreamRequestView {
    UpstreamRequestView {
        method: request.method,
        uri: upstream_uri(backend_address(port), request.path, request.query),
        headers: request_headers(request.headers, request.peer_ip),
        body: request.body,
        timeout: seconds(FORWARD_TIMEOUT_SECS),
    }
}

/// The step that follows the arrival of `request`: its host is to be
/// resolved, by the value of its `Host` header, or, if it has no such header,
/// it is rejected with status `400` and nothing else.
pub open spec fn received(request: InboundRequestView) -> StepView {
    match first_value(request.headers, host()) {
        Some(name) => StepView::Resolve { host: name, request },
        None => StepView::Respond { state: State::Rejected, response: bare(BAD_REQUEST) },
    }
}

/// The step that follows the answer of the routing table. A port sends the
/// request on to the backend at that port; anything else is a failed
/// resolution, answered with status `500` and nothing else. A request that
/// cannot be built for the backend is a failed forward, answered likewise.
pub open spec fn routed(request: InboundRequestView, resolution: Resolution) -> StepView {
    match resolution {
        Resolution::Port(value) if port_of(value).is_some() => if can_forward(request) {
            StepView::Send { upstream: dispatched(request, port_of(value).unwrap()) }
        } else {
            StepView::Respond {
                state: State::ForwardFailed,
                response: client_view(Err(ForwardFailure::Request)),
            }
        },
        _ => StepView::Respond {
            state: State::ResolutionFailed,
            response: bare(INTERNAL_SERVER_ERROR),
        },
    }
}

/// The step that follows the end of the upstream request: the client gets
/// the backend's response with its headers sanitized, or the response that
/// reports the failure.
pub open spec fn answered(outcome: Result<ResponseView, ForwardFailure>) -> StepView {
    StepView::Respond {
        state: if outcome.is_ok() {
            State::Forwarded
        } else {
            State::ForwardFailed
        },
        response: client_view(outcome),
    }
}

/// Takes a request in.
///
/// A request with a `Host` header is to be resolved, by the value of that
/// header. A request without one is answered with status `400` and nothing
/// else.
pub fn receive(request: InboundRequest) -> (step: Step)
    ensures
        step@ == received(request@),
{
    proof {
        lemma_names_canonical();
    }
    match header_get(&request.headers, "host".as_bytes()) {
        Some(name) => Step::Resolve { host: name, request },
        None => Step::Respond { state: State::Rejected, response: bare_response(BAD_REQUEST) },
    }
}

/// Acts on the answer of the routing table.
///
/// If the answer is a port, the request is forwarded to
/// `http://127.0.0.1:<port>` with the same path and query, under a time limit
/// of one second. If the host has no backend, or no port can be had for it,
/// the client gets status `500` and nothing else. So it does if the request
/// for the backend cannot be built.
pub fn resolved(request: InboundRequest, resolution: Resolution) -> (step: Step)
    ensures
        step@ == routed(request@, resolution),
{
    let port = match resolution {
        Resolution::Port(value) => backend_port(value),
        _ => None,
    };
    match port {
        Some(port) => {
            let url = backend_url(port);
            let proxy = ReverseProxy::new(url.as_str()).timeout(
                duration_from_secs(FORWARD_TIMEOUT_SECS),
            );
            match proxy.upstream_request(request) {
                Ok(upstream) => Step::Send { upstream },
                Err(failure) => Step::Respond {
                    state: State::ForwardFailed,
                    response: client_response(Err(failure)),
                },
            }
        },
        None => Step::Respond {
            state: State::ResolutionFailed,
            response: bare_response(INTERNAL_SERVER_ERROR),
        },
    }
}

/// Acts on what came of the upstream request: the client gets the backend's
/// response, sanitized, or the response that reports the failure.
pub fn completed(outcome: Result<Response, ForwardFailure>) -> (step: Step)
    ensures
        step@ == answered(
            match outcome {
                Ok(upstream) => Ok(upstream@),
                Err(failure) => Err(failure),
            },
        ),
{
    let state = if outcome.is_ok() {
        State::Forwarded
    } else {
        State::ForwardFailed
    };
    Step::Respond { state, response: client_response(outcome) }
}

/// Every decision moves a request along the state machine. Taking it in
/// leads from received to resolving or rejected. The routing table's answer
/// leads from resolving to a failed resolution, or through resolved to
/// forwarding and, if the request for the backend cannot be built, on to a
/// failed forward. The end of the upstream request leads from forwarding to
/// forwarded or to a failed forward. A response is decided exactly in the
/// final states.
pub proof fn decisions_follow_the_state_machine(
    request: InboundRequestView,
    resolution: Resolution,
    outcome: Result<ResponseView, ForwardFailure>,
)
    ensures
        State::Received.leads_to(received(request).state()),
        State::Resolving.leads_to(routed(request, resolution).state()) || {
            &&& State::Resolving.leads_to(State::Resolved)
            &&& State::Resolved.leads_to(State::Forwarding)
            &&& routed(request, resolution).state() == State::Forwarding
                || State::Forwarding.leads_to(routed(request, resolution).state())
        },
        State::Forwarding.leads_to(answered(outcome).state()),
        received(request) is Respond <==> received(request).state().is_final(),
        routed(request, resolution) is Respond <==> routed(request, resolution).state().is_final(),
        answered(outcome) is Respond && answered(outcome).state().is_final(),
{
}

/// A request whose host is mapped to a port is forwarded to
/// `http://127.0.0.1:<port>` with the same method, path, query string and
/// body, provided the request for the backend can be built.
pub proof fn mapped_host_is_forwarded_to_its_backend(request: InboundRequestView, port: i32)
    requires
        1 <= port <= 65535,
        can_forward(request),
    ensures
        routed(request, Resolution::Port(port)) matches StepView::Send { upstream } && {
            &&& upstream.uri == "http://127.0.0.1:"@ + decimal(port as nat) + request.path + (
            match request.query {
                Some(q) => seq!['?'] + q,
                None => Seq::empty(),
            })
            &&& upstream.method == request.method
            &&& upstream.body == request.body
        },
{
    let upstream = dispatched(request, port as u16);
    let base = "http://127.0.0.1:"@ + decimal(port as nat);
    match request.query {
        Some(q) => {
            assert(upstream.uri =~= base + request.path + (seq!['?'] + q));
        },
        None => {
            assert(upstream.uri =~= base + request.path + Seq::<char>::empty());
        },
    }
}

/// A request whose host has no backend gets a response of the server-error
/// class with an empty body, whatever the request holds, and whether the
/// routing table had no entry, held no port, or could not be asked.
pub proof fn unmapped_host_gets_server_error(request: InboundRequestView, resolution: Resolution)
    requires
        resolution matches Resolution::Port(value) ==> port_of(value).is_none(),
    ensures
        routed(request, resolution) matches StepView::Respond { state, response } && {
            &&& state == State::ResolutionFailed
            &&& 500 <= response.status <= 599
            &&& response.body.len() == 0
        },
{
}

} // verus!
