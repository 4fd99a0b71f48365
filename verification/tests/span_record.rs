use http::HeaderMap;
use request_tracing::{on_response, Outcome, Request, Response, Span, SpanContext, SpanState};
use std::time::Duration;

fn upstream(trace_id: u128, span_id: u64) -> SpanContext {
    SpanContext {
        trace_id,
        span_id,
        trace_flags: 1,
        is_remote: true,
        trace_state: String::from("vendor=1"),
    }
}

#[test]
fn open_copies_the_request_line() {
    let headers = HeaderMap::new();
    let request = Request { method: "POST", uri: "/orders?id=7", version: "HTTP/2.0", headers: &headers };
    let span = Span::open(&request, SpanContext::placeholder());
    assert_eq!(span.name(), "request");
    assert_eq!(span.method(), "POST");
    assert_eq!(span.uri(), "/orders?id=7");
    assert_eq!(span.version(), "HTTP/2.0");
    assert_eq!(span.status(), None);
    assert_eq!(span.latency(), None);
    assert_eq!(span.state(), SpanState::Created);
}

#[test]
fn open_with_valid_context_takes_it_as_parent() {
    let headers = HeaderMap::new();
    let request = Request { method: "GET", uri: "/", version: "HTTP/1.1", headers: &headers };
    let context = upstream(0x4bf92f3577b34da6a3ce929d0e0e4736, 0x00f067aa0ba902b7);
    let span = Span::open(&request, context.clone());
    assert_eq!(span.parent(), Some(&context));
    assert!(!span.is_root());
}

#[test]
fn open_with_placeholder_context_is_root() {
    let headers = HeaderMap::new();
    let request = Request { method: "GET", uri: "/", version: "HTTP/1.1", headers: &headers };
    let span = Span::open(&request, SpanContext::placeholder());
    assert_eq!(span.parent(), None);
    assert!(span.is_root());
}

#[test]
fn open_with_zero_trace_id_is_root() {
    let headers = HeaderMap::new();
    let request = Request { method: "GET", uri: "/", version: "HTTP/1.1", headers: &headers };
    let span = Span::open(&request, upstream(0, 0x00f067aa0ba902b7));
    assert_eq!(span.parent(), None);
    assert!(span.is_root());
}

#[test]
fn open_with_zero_span_id_is_root() {
    let headers = HeaderMap::new();
    let request = Request { method: "GET", uri: "/", version: "HTTP/1.1", headers: &headers };
    let span = Span::open(&request, upstream(0x4bf92f3577b34da6a3ce929d0e0e4736, 0));
    assert_eq!(span.parent(), None);
    assert!(span.is_root());
}

#[test]
fn placeholder_is_all_zero() {
    let placeholder = SpanContext::placeholder();
    assert_eq!(placeholder.trace_id, 0);
    assert_eq!(placeholder.span_id, 0);
    assert_eq!(placeholder.trace_flags, 0);
    assert!(!placeholder.is_remote);
    assert_eq!(placeholder.trace_state, "");
    assert!(!placeholder.is_valid());
}

#[test]
fn validity_needs_both_identifiers() {
    assert!(upstream(1, 1).is_valid());
    assert!(upstream(u128::MAX, u64::MAX).is_valid());
    assert!(!upstream(0, 1).is_valid());
    assert!(!upstream(1, 0).is_valid());
    assert!(!upstream(0, 0).is_valid());
}

#[test]
fn validity_agrees_with_opentelemetry() {
    let cases: Vec<(u128, u64)> = vec![(0, 0), (0, 9), (9, 0), (9, 9), (u128::MAX, 1), (1 << 64, 1 << 63)];
    for (trace_id, span_id) in cases {
        let theirs = opentelemetry::trace::SpanContext::new(
            opentelemetry::trace::TraceId::from(trace_id),
            opentelemetry::trace::SpanId::from(span_id),
            opentelemetry::trace::TraceFlags::SAMPLED,
            true,
            opentelemetry::trace::TraceState::default(),
        );
        assert_eq!(upstream(trace_id, span_id).is_valid(), theirs.is_valid());
    }
}

#[test]
fn on_response_fills_status_and_latency() {
    let headers = HeaderMap::new();
    let request = Request { method: "GET", uri: "/", version: "HTTP/1.1", headers: &headers };
    let mut span = Span::open(&request, SpanContext::placeholder());
    on_response(&Response { status: 404 }, Duration::from_micros(250), &mut span);
    assert_eq!(span.status(), Some(404));
    assert_eq!(span.latency(), Some(250_000));
    assert_eq!(span.state(), SpanState::Annotated);
}

#[test]
fn on_response_leaves_the_rest_alone() {
    let headers = HeaderMap::new();
    let request = Request { method: "PUT", uri: "/items/3", version: "HTTP/1.0", headers: &headers };
    let context = upstream(7, 8);
    let mut span = Span::open(&request, context.clone());
    on_response(&Response { status: 204 }, Duration::from_secs(2), &mut span);
    assert_eq!(span.name(), "request");
    assert_eq!(span.method(), "PUT");
    assert_eq!(span.uri(), "/items/3");
    assert_eq!(span.version(), "HTTP/1.0");
    assert_eq!(span.parent(), Some(&context));
}

#[test]
fn on_response_again_replaces_the_outcome() {
    let headers = HeaderMap::new();
    let request = Request { method: "GET", uri: "/", version: "HTTP/1.1", headers: &headers };
    let mut span = Span::open(&request, SpanContext::placeholder());
    on_response(&Response { status: 500 }, Duration::from_millis(1), &mut span);
    on_response(&Response { status: 200 }, Duration::from_millis(3), &mut span);
    assert_eq!(span.status(), Some(200));
    assert_eq!(span.latency(), Some(3_000_000));
    assert_eq!(span.state(), SpanState::Annotated);
}

#[test]
fn annotate_records_the_outcome_as_given() {
    let headers = HeaderMap::new();
    let request = Request { method: "GET", uri: "/", version: "HTTP/1.1", headers: &headers };
    let mut span = Span::open(&request, SpanContext::placeholder());
    span.annotate(Outcome { status: 302, latency: 17 });
    assert_eq!(span.status(), Some(302));
    assert_eq!(span.latency(), Some(17));
}

#[test]
fn outcome_latency_is_in_nanoseconds() {
    let response = Response { status: 200 };
    assert_eq!(Outcome::of(&response, Duration::from_millis(5)), Outcome { status: 200, latency: 5_000_000 });
    assert_eq!(Outcome::of(&response, Duration::new(1, 1)), Outcome { status: 200, latency: 1_000_000_001 });
    assert_eq!(Outcome::of(&response, Duration::ZERO), Outcome { status: 200, latency: 0 });
    assert_eq!(
        Outcome::of(&response, Duration::MAX),
        Outcome { status: 200, latency: u64::MAX as u128 * 1_000_000_000 + 999_999_999 }
    );
}

#[test]
fn outcome_keeps_any_status_code() {
    assert_eq!(Outcome::of(&Response { status: 0 }, Duration::ZERO).status, 0);
    assert_eq!(Outcome::of(&Response { status: 599 }, Duration::ZERO).status, 599);
    assert_eq!(Outcome::of(&Response { status: u16::MAX }, Duration::ZERO).status, u16::MAX);
}

#[test]
fn clone_keeps_the_record() {
    let headers = HeaderMap::new();
    let request = Request { method: "GET", uri: "/a", version: "HTTP/1.1", headers: &headers };
    let mut span = Span::open(&request, upstream(3, 4));
    span.annotate(Outcome { status: 201, latency: 9 });
    let copy = span.clone();
    assert_eq!(copy, span);
    assert_eq!(copy.parent(), Some(&upstream(3, 4)));
    assert_eq!(copy.status(), Some(201));
    assert_eq!(copy.latency(), Some(9));
    assert_eq!(upstream(3, 4).clone(), upstream(3, 4));
}
