//! The two ends of an exchange, reduced to what a span records.

use http::HeaderMap;
use vstd::prelude::*;

verus! {

/// An inbound request: its request line as text, and its header fields.
///
/// The header fields are only ever handed to a propagator, so they stay in
/// the map that the HTTP stack parsed them into.
#[derive(Debug, Clone, Copy)]
pub struct Request<'a> {
    /// Request method, such as `GET`.
    pub method: &'a str,
    /// Request target, such as `/health`.
    pub uri: &'a str,
    /// Protocol version, such as `HTTP/1.1`.
    pub version: &'a str,
    /// Header fields of the request.
    pub headers: &'a HeaderMap,
}

/// The response that a request ended in.
#[derive(Debug, Clone, Copy, PartialEq, Eq)]
pub struct Response {
    /// Numeric status code, such as `200`.
    pub status: u16,
}

} // verus!
