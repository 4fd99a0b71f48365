//! Request tracing for an HTTP service.
//!
//! The crate keeps a plain record of each request's span: the request line it
//! was opened for, the upstream trace context it continues, and the outcome
//! that is filled in once the response is ready. It also resolves the settings
//! of the export pipeline and installs that pipeline for the whole process.

pub mod bindings;
pub mod config;
pub mod context;
pub mod init;
pub mod message;
pub mod span;

pub use config::{Sampling, TracingConfig, TracingConfigView};
pub use context::{SpanContext, SpanContextView};
pub use init::{init_tracing, install, InitError, InitErrorKind};
pub use message::{Request, Response};
pub use span::{make_span, on_response, Outcome, Span, SpanState, SpanView};
