use actix_web::http::header::{HeaderMap, HeaderName, HeaderValue};
use reverse_proxy::dispatch::{
    backend_port, backend_url, completed, push_decimal, receive, resolved, Resolution, State,
    Step, FORWARD_TIMEOUT_SECS,
};
use reverse_proxy::message::{ForwardFailure, InboundRequest, Response};
use std::time::Duration;

fn header_set(pairs: &[(&str, &str)]) -> HeaderMap {
    let mut map = HeaderMap::new();
    for (name, value) in pairs {
        map.append(
            HeaderName::from_bytes(name.as_bytes()).unwrap(),
            HeaderValue::from_bytes(value.as_bytes()).unwrap(),
        );
    }
    map
}

fn listing(map: &HeaderMap) -> Vec<(String, Vec<Vec<u8>>)> {
    let mut names: Vec<String> = map.keys().map(|k| k.as_str().to_string()).collect();
    names.sort();
    names
        .into_iter()
        .map(|name| {
            let values = map.get_all(name.as_str()).map(|v| v.as_bytes().to_vec()).collect();
            (name, values)
        })
        .collect()
}

fn get(path: &str, query: Option<&str>, peer: Option<&str>, map: HeaderMap) -> InboundRequest {
    InboundRequest {
        method: "GET".to_string(),
        path: path.to_string(),
        query: query.map(|q| q.to_string()),
        headers: map,
        body: Vec::new(),
        peer_ip: peer.map(|p| p.to_string()),
    }
}

fn expect_response(step: Step, state: State, status: u16) {
    match step {
        Step::Respond { state: reached, response } => {
            assert_eq!(reached, state);
            assert_eq!(response.status, status);
            assert!(response.headers.is_empty());
            assert!(response.body.is_empty());
        }
        other => panic!("expected a response, got {:?}", other),
    }
}

#[test]
fn scenario_api_example_com_is_forwarded_to_port_9001() {
    let inbound = get(
        "/v1/items",
        Some("limit=10"),
        Some("10.0.0.5"),
        header_set(&[("Host", "api.example.com"), ("Accept", "*/*")]),
    );
    let (host, inbound) = match receive(inbound) {
        Step::Resolve { host, request } => (host, request),
        other => panic!("expected a lookup, got {:?}", other),
    };
    assert_eq!(host, b"api.example.com".to_vec());
    let upstream = match resolved(inbound, Resolution::Port(9001)) {
        Step::Send { upstream } => upstream,
        other => panic!("expected an upstream request, got {:?}", other),
    };
    assert_eq!(upstream.method, "GET");
    assert_eq!(upstream.uri, "http://127.0.0.1:9001/v1/items?limit=10");
    assert_eq!(upstream.timeout, Duration::from_secs(1));
    assert!(upstream.body.is_empty());
    assert_eq!(
        listing(&upstream.headers),
        vec![
            ("accept".to_string(), vec![b"*/*".to_vec()]),
            ("host".to_string(), vec![b"api.example.com".to_vec()]),
            ("user-agent".to_string(), vec![b"".to_vec()]),
            ("x-forwarded-for".to_string(), vec![b"10.0.0.5".to_vec()]),
        ]
    );
}

#[test]
fn receive_hands_the_request_back_unchanged() {
    let inbound = get("/p", Some("q"), Some("10.0.0.5"), header_set(&[("Host", "a.test"), ("Connection", "close")]));
    match receive(inbound) {
        Step::Resolve { host, request } => {
            assert_eq!(host, b"a.test".to_vec());
            assert_eq!(request.method, "GET");
            assert_eq!(request.path, "/p");
            assert_eq!(request.query, Some("q".to_string()));
            assert_eq!(request.peer_ip, Some("10.0.0.5".to_string()));
            assert_eq!(
                listing(&request.headers),
                vec![
                    ("connection".to_string(), vec![b"close".to_vec()]),
                    ("host".to_string(), vec![b"a.test".to_vec()]),
                ]
            );
        }
        other => panic!("expected a lookup, got {:?}", other),
    }
}

#[test]
fn receive_passes_the_raw_host_value() {
    let inbound = get("/", None, None, header_set(&[("host", "Example.COM:8080")]));
    match receive(inbound) {
        Step::Resolve { host, .. } => assert_eq!(host, b"Example.COM:8080".to_vec()),
        other => panic!("expected a lookup, got {:?}", other),
    }
}

#[test]
fn receive_rejects_a_request_without_host() {
    let inbound = get("/", None, Some("10.0.0.5"), header_set(&[("Accept", "a")]));
    expect_response(receive(inbound), State::Rejected, 400);
}

#[test]
fn unmapped_host_gets_status_500_and_an_empty_body() {
    for resolution in [Resolution::NotFound, Resolution::StoreError] {
        let inbound = get("/x", None, Some("10.0.0.5"), header_set(&[("Host", "nobody.test")]));
        expect_response(resolved(inbound, resolution), State::ResolutionFailed, 500);
    }
}

#[test]
fn value_that_is_no_port_counts_as_unmapped() {
    for value in [0, -1, 65536, 70000, i32::MIN, i32::MAX] {
        let inbound = get("/x", None, Some("10.0.0.5"), header_set(&[("Host", "a.test")]));
        expect_response(resolved(inbound, Resolution::Port(value)), State::ResolutionFailed, 500);
    }
}

#[test]
fn resolved_forwards_to_the_lowest_and_highest_port() {
    for (value, uri) in [(1, "http://127.0.0.1:1/x"), (65535, "http://127.0.0.1:65535/x")] {
        let inbound = get("/x", None, None, header_set(&[("Host", "a.test")]));
        match resolved(inbound, Resolution::Port(value)) {
            Step::Send { upstream } => assert_eq!(upstream.uri, uri),
            other => panic!("expected an upstream request, got {:?}", other),
        }
    }
}

#[test]
fn resolved_gives_the_backend_one_second() {
    assert_eq!(FORWARD_TIMEOUT_SECS, 1);
    let inbound = get("/", None, None, header_set(&[("Host", "a.test")]));
    match resolved(inbound, Resolution::Port(8080)) {
        Step::Send { upstream } => assert_eq!(upstream.timeout, Duration::from_secs(1)),
        other => panic!("expected an upstream request, got {:?}", other),
    }
}

#[test]
fn resolved_reports_a_request_that_cannot_be_built() {
    let inbound = get("/", None, Some("10.0.0.5\u{7f}"), header_set(&[("Host", "a.test")]));
    expect_response(resolved(inbound, Resolution::Port(8080)), State::ForwardFailed, 500);
}

#[test]
fn completed_hands_the_sanitized_response_to_the_client() {
    let upstream = Response {
        status: 200,
        headers: header_set(&[("Content-Type", "text/plain"), ("Connection", "close")]),
        body: b"hello".to_vec(),
    };
    match completed(Ok(upstream)) {
        Step::Respond { state, response } => {
            assert_eq!(state, State::Forwarded);
            assert_eq!(response.status, 200);
            assert_eq!(response.body, b"hello".to_vec());
            assert_eq!(
                listing(&response.headers),
                vec![("content-type".to_string(), vec![b"text/plain".to_vec()])]
            );
        }
        other => panic!("expected a response, got {:?}", other),
    }
}

#[test]
fn completed_reports_each_failure() {
    expect_response(completed(Err(ForwardFailure::Timeout)), State::ForwardFailed, 500);
    expect_response(completed(Err(ForwardFailure::Transport)), State::ForwardFailed, 500);
    expect_response(completed(Err(ForwardFailure::Request)), State::ForwardFailed, 500);
    expect_response(completed(Err(ForwardFailure::Connect)), State::ForwardFailed, 400);
    expect_response(completed(Err(ForwardFailure::ConnectTimeout)), State::ForwardFailed, 504);
}

#[test]
fn backend_port_accepts_one_to_65535() {
    assert_eq!(backend_port(1), Some(1));
    assert_eq!(backend_port(9001), Some(9001));
    assert_eq!(backend_port(65535), Some(65535));
    assert_eq!(backend_port(0), None);
    assert_eq!(backend_port(-9001), None);
    assert_eq!(backend_port(65536), None);
    assert_eq!(backend_port(i32::MAX), None);
    assert_eq!(backend_port(i32::MIN), None);
}

#[test]
fn backend_url_is_the_loopback_address_with_the_port_in_decimal() {
    assert_eq!(backend_url(9001), "http://127.0.0.1:9001");
    assert_eq!(backend_url(0), "http://127.0.0.1:0");
    assert_eq!(backend_url(7), "http://127.0.0.1:7");
    assert_eq!(backend_url(10), "http://127.0.0.1:10");
    assert_eq!(backend_url(80), "http://127.0.0.1:80");
    assert_eq!(backend_url(1000), "http://127.0.0.1:1000");
    assert_eq!(backend_url(60009), "http://127.0.0.1:60009");
    assert_eq!(backend_url(65535), "http://127.0.0.1:65535");
}

#[test]
fn backend_url_agrees_with_the_standard_formatting() {
    let mut port: u32 = 0;
    while port <= 65535 {
        assert_eq!(backend_url(port as u16), format!("http://127.0.0.1:{}", port));
        port += 257;
    }
}

#[test]
fn push_decimal_appends_to_what_is_there() {
    let mut text = String::from("port ");
    push_decimal(&mut text, 443);
    assert_eq!(text, "port 443");
    push_decimal(&mut text, 0);
    assert_eq!(text, "port 4430");
}
