use wasi_host::errors::{timeout_error, HttpError};
use wasi_host::http_types::{
    method_from_wire, method_to_wire, outgoing_response_to_wire, BodySource, Duration,
    HostFutureIncomingResponse, HostOutgoingResponse, HostRequestOptions, Method, OutgoingRequest,
    RequestParts, WireRequest, WireResponse,
};
use wasi_host::poll::Resource;
use wasi_host::send_request::{
    default_send_request, host_of_authority, send_request_step, SendEvent, SendState,
    WasiHttpView, DEFAULT_BETWEEN_BYTES_TIMEOUT_NS,
};
use wasi_host::streams::InputStream;

fn request(use_tls: bool) -> OutgoingRequest {
    OutgoingRequest {
        use_tls,
        authority: "example.invalid:80".to_owned(),
        request: WireRequest {
            method: "GET".to_owned(),
            path_with_query: Some("/".to_owned()),
            headers: vec![],
            body: None,
        },
        connect_timeout: Duration { nanos: 600_000_000_000 },
        first_byte_timeout: Duration { nanos: 600_000_000_000 },
        between_bytes_timeout: Duration { nanos: 600_000_000_000 },
    }
}

#[test]
fn named_methods_round_trip_through_wire() {
    let tokens = [
        "GET", "HEAD", "POST", "PUT", "DELETE", "CONNECT", "OPTIONS", "TRACE", "PATCH",
    ];
    for token in tokens {
        let m = method_from_wire(token);
        assert!(!matches!(m, Method::Other(_)), "{token} should map to a named variant");
        assert_eq!(method_to_wire(m).unwrap(), token);
    }
}

#[test]
fn other_method_token_survives_round_trip() {
    let m = method_from_wire("PROPFIND");
    match &m {
        Method::Other(s) => assert_eq!(s, "PROPFIND"),
        _ => unreachable!(),
    }
    assert_eq!(method_to_wire(m).unwrap(), "PROPFIND");
}

#[test]
fn invalid_other_token_is_rejected_on_the_way_back() {
    assert!(method_to_wire(Method::Other("BAD METHOD".to_owned())).is_err());
    assert!(method_to_wire(Method::Other("".to_owned())).is_err());
    assert!(method_to_wire(Method::Other("G\u{00d6}T".to_owned())).is_err());
    assert!(method_to_wire(Method::Other("X-CUSTOM!".to_owned())).is_ok());
}

#[test]
fn future_reads_not_ready_then_once_then_invalid_state() {
    let mut f = HostFutureIncomingResponse::new(7);
    assert!(!f.is_ready());
    // Before the background task completes, every read says "not ready".
    assert!(matches!(f.get(), Ok(None)));
    assert!(matches!(f.get(), Ok(None)));
    f.ready(Err(HttpError::InvalidUrl("no such host".to_owned())));
    assert!(f.is_ready());
    // Exactly one read yields the result...
    match f.get() {
        Ok(Some(Err(HttpError::InvalidUrl(m)))) => assert_eq!(m, "no such host"),
        _ => unreachable!(),
    }
    // ...and every read after that fails as an invalid-state error.
    assert!(f.get().is_err());
    assert!(f.get().is_err());
}

#[test]
fn future_transition_happens_exactly_once() {
    let mut f = HostFutureIncomingResponse::new(1);
    f.ready(Err(HttpError::ProtocolError("first".to_owned())));
    // A second completion is ignored: the first result stays.
    f.ready(Err(HttpError::ProtocolError("second".to_owned())));
    match f.unwrap_ready() {
        Err(HttpError::ProtocolError(m)) => assert_eq!(m, "first"),
        _ => unreachable!(),
    }
}

#[test]
fn unresolvable_target_classifies_as_invalid_url() {
    // The request targets a host with unreachable DNS resolution; the TCP
    // connect fails and the future resolves to the invalid-url error.
    let mut view = WasiHttpView::new();
    let req = request(false);
    let fut = default_send_request(&mut view, request(false), 7).unwrap();
    let next = send_request_step(
        &req,
        SendState::Connecting,
        SendEvent::TcpFailed("failed to lookup address information".to_owned()),
    );
    let outcome = match next {
        SendState::Finished(outcome) => outcome,
        _ => unreachable!(),
    };
    assert!(matches!(outcome, Err(HttpError::InvalidUrl(_))));
    match view.table.get_mut(fut) {
        Resource::FutureIncomingResponse(f) => {
            assert!(matches!(f.get(), Ok(None)));
            f.ready(outcome);
            match f.get() {
                Ok(Some(Err(HttpError::InvalidUrl(_)))) => {}
                _ => unreachable!(),
            }
        }
        _ => unreachable!(),
    }
}

#[test]
fn handshake_past_connect_timeout_classifies_as_connection_timeout() {
    let req = request(false);
    let next = send_request_step(&req, SendState::HttpHandshaking, SendEvent::HandshakeTimedOut);
    match next {
        SendState::Finished(Err(HttpError::TimeoutError(m))) => {
            assert_eq!(m, "connection timed out");
        }
        _ => unreachable!(),
    }
}

#[test]
fn first_byte_timeout_is_tagged_first_byte() {
    let req = request(false);
    let next = send_request_step(
        &req,
        SendState::SendingRequest { worker: 3 },
        SendEvent::FirstByteTimedOut,
    );
    match next {
        SendState::Finished(Err(HttpError::TimeoutError(m))) => {
            assert_eq!(m, "first byte timed out");
        }
        _ => unreachable!(),
    }
}

#[test]
fn pipeline_happy_path_threads_between_bytes_timeout() {
    let mut req = request(true);
    req.between_bytes_timeout = Duration { nanos: 123 };
    let s1 = send_request_step(&req, SendState::Connecting, SendEvent::TcpConnected);
    match &s1 {
        SendState::TlsHandshaking { host } => assert_eq!(host, "example.invalid"),
        _ => unreachable!(),
    }
    let s2 = send_request_step(&req, s1, SendEvent::TlsConnected);
    assert!(matches!(s2, SendState::HttpHandshaking));
    let s3 = send_request_step(&req, s2, SendEvent::HandshakeOk { worker: 9 });
    assert!(matches!(s3, SendState::SendingRequest { worker: 9 }));
    let resp = WireResponse { status: 200, headers: vec![], body: InputStream::new() };
    let s4 = send_request_step(&req, s3, SendEvent::ResponseReceived(resp));
    match s4 {
        SendState::Finished(Ok(inner)) => {
            assert_eq!(inner.resp.status, 200);
            assert_eq!(inner.worker, 9);
            assert_eq!(inner.between_bytes_timeout.nanos, 123);
        }
        _ => unreachable!(),
    }
}

#[test]
fn tls_unsupported_platform_fails_fast() {
    let req = request(true);
    let s = SendState::TlsHandshaking { host: "example.invalid".to_owned() };
    match send_request_step(&req, s, SendEvent::TlsUnsupported) {
        SendState::Finished(Err(HttpError::UnexpectedError(m))) => {
            assert_eq!(m, "unsupported architecture for SSL");
        }
        _ => unreachable!(),
    }
}

#[test]
fn timeout_error_message_names_the_phase() {
    match timeout_error("connection") {
        HttpError::TimeoutError(m) => assert_eq!(m, "connection timed out"),
        _ => unreachable!(),
    }
    match timeout_error("first byte") {
        HttpError::TimeoutError(m) => assert_eq!(m, "first byte timed out"),
        _ => unreachable!(),
    }
    assert_eq!(timeout_error("connection").message(), "connection timed out");
}

#[test]
fn host_of_authority_strips_the_port() {
    assert_eq!(host_of_authority("example.com:443"), "example.com");
    assert_eq!(host_of_authority("example.com"), "example.com");
    assert_eq!(host_of_authority("127.0.0.1:8080"), "127.0.0.1");
    assert_eq!(host_of_authority(":80"), "");
}

#[test]
fn missing_response_body_becomes_empty() {
    let w = outgoing_response_to_wire(HostOutgoingResponse {
        status: 204,
        headers: vec![],
        body: None,
    });
    assert_eq!(w.status, 204);
    assert!(matches!(w.body, BodySource::Empty));
    let w2 = outgoing_response_to_wire(HostOutgoingResponse {
        status: 200,
        headers: vec![("content-type".to_owned(), b"text/plain".to_vec())],
        body: Some(5),
    });
    assert!(matches!(w2.body, BodySource::Stream(5)));
}

#[test]
fn incoming_request_gets_default_between_bytes_timeout() {
    let mut view = WasiHttpView::new();
    let parts = RequestParts {
        method: "GET".to_owned(),
        scheme: None,
        authority: Some("example.com".to_owned()),
        path_with_query: Some("/".to_owned()),
        headers: vec![],
    };
    let h = view.new_incoming_request(parts, Some(InputStream::new())).unwrap();
    match view.table.get(h).unwrap() {
        Resource::IncomingRequest(ir) => {
            let body = ir.body.as_ref().unwrap();
            assert_eq!(body.between_bytes_timeout.nanos, DEFAULT_BETWEEN_BYTES_TIMEOUT_NS);
            assert_eq!(body.between_bytes_timeout.nanos, 600_000_000_000);
            assert!(body.worker.is_none());
        }
        _ => unreachable!(),
    }
}

#[test]
fn response_outparam_holds_its_channel() {
    let mut view = WasiHttpView::new();
    let h = view.new_response_outparam(77).unwrap();
    match view.table.get(h).unwrap() {
        Resource::ResponseOutparam(p) => assert_eq!(p.result, 77),
        _ => unreachable!(),
    }
    assert!(!view.is_forbidden_header("authorization"));
}

#[test]
fn request_options_default_to_no_budget() {
    let o = HostRequestOptions::default();
    assert!(o.connect_timeout.is_none());
    assert!(o.first_byte_timeout.is_none());
    assert!(o.between_bytes_timeout.is_none());
}
