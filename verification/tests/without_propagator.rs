use http::{HeaderMap, HeaderValue};
use request_tracing::{make_span, Request};

#[test]
fn without_a_propagator_every_request_is_root() {
    let empty = HeaderMap::new();
    let bare = Request { method: "GET", uri: "/", version: "HTTP/1.1", headers: &empty };
    assert!(make_span(&bare).is_root());

    let mut headers = HeaderMap::new();
    headers.insert(
        "traceparent",
        HeaderValue::from_static("00-4bf92f3577b34da6a3ce929d0e0e4736-00f067aa0ba902b7-01"),
    );
    let traced = Request { method: "GET", uri: "/", version: "HTTP/1.1", headers: &headers };
    assert!(make_span(&traced).is_root());
}
