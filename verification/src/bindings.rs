//! Everything this crate takes on trust from the crates it builds on.
//!
//! Verus reads none of the bodies here and believes each contract as written.
//! Each item names the function it stands for and says what is claimed of it.

use crate::config::Sampling;
use crate::context::SpanContext;
use http::HeaderMap;
use opentelemetry::trace::{TraceContextExt, TraceError};
use opentelemetry::KeyValue;
use opentelemetry_http::HeaderExtractor;
use opentelemetry_otlp::WithExportConfig;
use opentelemetry_sdk::propagation::TraceContextPropagator;
use opentelemetry_sdk::trace::{BatchConfig, Config, Sampler, Tracer};
use opentelemetry_sdk::Resource;
use opentelemetry_semantic_conventions::resource::{SERVICE_NAME, SERVICE_VERSION};
use std::time::Duration;
use tokio::runtime::{Builder, Runtime};
use tracing_subscriber::filter::ParseError;
use tracing_subscriber::layer::SubscriberExt;
use tracing_subscriber::util::{SubscriberInitExt, TryInitError};
use tracing_subscriber::EnvFilter;
use vstd::prelude::*;

verus! {

/// `http::HeaderMap`, the header fields of a message. Carried through, never
/// looked into.
#[verifier::external_type_specification]
#[verifier::external_body]
#[verifier::reject_recursive_types(T)]
pub struct ExHeaderMap<T>(http::HeaderMap<T>);

/// `http::HeaderValue`, the value of one header field.
#[verifier::external_type_specification]
#[verifier::external_body]
pub struct ExHeaderValue(http::HeaderValue);

/// `opentelemetry_sdk::trace::Config`, the settings of a tracer provider.
#[verifier::external_type_specification]
#[verifier::external_body]
pub struct ExConfig(opentelemetry_sdk::trace::Config);

/// `opentelemetry_sdk::trace::Tracer`, the handle that spans are made through.
#[verifier::external_type_specification]
#[verifier::external_body]
pub struct ExTracer(opentelemetry_sdk::trace::Tracer);

/// `opentelemetry::trace::TraceError`, the error of the tracing pipeline.
#[verifier::external_type_specification]
#[verifier::external_body]
pub struct ExTraceError(opentelemetry::trace::TraceError);

/// `tokio::runtime::Runtime`, a Tokio runtime with its threads and drivers.
#[verifier::external_type_specification]
#[verifier::external_body]
pub struct ExRuntime(tokio::runtime::Runtime);

/// `std::io::Error`, the error of a runtime that could not be built.
#[verifier::external_type_specification]
#[verifier::external_body]
pub struct ExIoError(std::io::Error);

/// `tracing_subscriber::EnvFilter`, a parsed set of filter directives.
#[verifier::external_type_specification]
#[verifier::external_body]
pub struct ExEnvFilter(tracing_subscriber::EnvFilter);

/// `tracing_subscriber::filter::ParseError`, the error of a malformed
/// directive.
#[verifier::external_type_specification]
#[verifier::external_body]
pub struct ExParseError(tracing_subscriber::filter::ParseError);

/// `tracing_subscriber::util::TryInitError`, the error of a subscriber that
/// could not be made the process-wide one.
#[verifier::external_type_specification]
#[verifier::external_body]
pub struct ExTryInitError(tracing_subscriber::util::TryInitError);

/// The total number of nanoseconds that a `Duration` spans.
pub uninterp spec fn duration_nanos(duration: Duration) -> u128;

/// `Duration::as_nanos` returns the total number of nanoseconds contained in
/// the duration.
pub assume_specification[ Duration::as_nanos ](duration: &Duration) -> (nanos: u128)
    ensures
        nanos == duration_nanos(*duration),
;

/// Runs the process-wide propagator over the header fields and copies out the
/// span context of what it returns: `opentelemetry::global::get_text_map_propagator`
/// with `TextMapPropagator::extract` on an `opentelemetry_http::HeaderExtractor`,
/// then `TraceContextExt::span` and `SpanRef::span_context`.
///
/// Nothing is claimed of the result. It depends on the propagator that the
/// process has installed and on the context that is current on the calling
/// thread, which the propagator falls back to when the headers name no span.
#[verifier::external_body]
pub(crate) fn extract_span_context(headers: &HeaderMap) -> (extracted: SpanContext) {
    let context = opentelemetry::global::get_text_map_propagator(
        |propagator| propagator.extract(&HeaderExtractor(headers)),
    );
    let span = context.span();
    let found = span.span_context();
    SpanContext {
        trace_id: u128::from_be_bytes(found.trace_id().to_bytes()),
        span_id: u64::from_be_bytes(found.span_id().to_bytes()),
        trace_flags: found.trace_flags().to_u8(),
        is_remote: found.is_remote(),
        trace_state: found.trace_state().header(),
    }
}

/// Whether `tracing_subscriber` accepts a string of filter directives: what
/// `tracing_subscriber::filter::Builder::parse` decides on a builder that was
/// left at its defaults. It is only ever asked of ASCII strings.
pub uninterp spec fn directives_accepted(directives: Seq<char>) -> bool;

/// `opentelemetry_otlp::OTEL_EXPORTER_OTLP_ENDPOINT_DEFAULT`, the address that
/// the exporter crate gives as its default target. The contract gives its
/// value.
#[verifier::external_body]
pub(crate) fn default_otlp_endpoint() -> (endpoint: &'static str)
    ensures
        endpoint@ == "http://localhost:4318"@,
{
    opentelemetry_otlp::OTEL_EXPORTER_OTLP_ENDPOINT_DEFAULT
}

/// Makes the W3C trace-context propagator the process-wide propagator:
/// `opentelemetry::global::set_text_map_propagator` with a new
/// `opentelemetry_sdk::propagation::TraceContextPropagator`.
#[verifier::external_body]
pub(crate) fn install_trace_context_propagator() {
    opentelemetry::global::set_text_map_propagator(TraceContextPropagator::new());
}

/// A runtime that this crate started for the exporter. Only [`start_runtime`]
/// makes one, so every one of them has its timers switched on.
pub(crate) struct ExportRuntime {
    runtime: Runtime,
}

/// Builds a Tokio runtime of `workers` threads with the time and I/O drivers
/// switched on: `tokio::runtime::Builder::new_multi_thread` with
/// `worker_threads`, `enable_all` and `build`. Nothing is claimed of the
/// result.
///
/// `worker_threads` panics on zero, and the scheduler allocates per worker,
/// so the number is kept to a handful. With the number given, the builder
/// does not read `TOKIO_WORKER_THREADS`. One thing is left to the system:
/// `build` starts the workers, and Tokio panics where the system refuses it
/// a thread.
#[verifier::external_body]
pub(crate) fn start_runtime(workers: usize) -> (started: Result<ExportRuntime, std::io::Error>)
    requires
        0 < workers <= 64,
{
    match Builder::new_multi_thread().worker_threads(workers).enable_all().build() {
        Ok(runtime) => Ok(ExportRuntime { runtime }),
        Err(error) => Err(error),
    }
}

/// Lets a runtime run for as long as the process does: `std::mem::forget`,
/// which takes the value and never runs its destructor.
#[verifier::external_body]
pub(crate) fn keep_runtime(runtime: ExportRuntime) {
    std::mem::forget(runtime.runtime);
}

/// Stops a runtime without waiting for it: `Runtime::shutdown_background`,
/// which unlike a drop may be called from inside another runtime.
#[verifier::external_body]
pub(crate) fn stop_runtime(runtime: ExportRuntime) {
    runtime.runtime.shutdown_background();
}

/// Builds the settings of a tracer provider: `opentelemetry_sdk::trace::config`
/// with a `Resource` of the two attributes `service.name` and
/// `service.version`, under the keys that
/// `opentelemetry_semantic_conventions` gives them, and with the sampler of
/// the SDK that stands for `sampling`. Nothing is claimed of the result; span
/// limits come from the `OTEL_*` variables of the process.
#[verifier::external_body]
pub(crate) fn trace_settings(
    service_name: &str,
    service_version: &str,
    sampling: Sampling,
) -> (settings: Config) {
    let resource = Resource::new(
        vec![
            KeyValue::new(SERVICE_NAME, service_name.to_string()),
            KeyValue::new(SERVICE_VERSION, service_version.to_string()),
        ],
    );
    let sampler = match sampling {
        Sampling::AlwaysOn => Sampler::AlwaysOn,
        Sampling::ParentBased => Sampler::ParentBased(Box::new(Sampler::AlwaysOn)),
    };
    opentelemetry_sdk::trace::config().with_resource(resource).with_sampler(sampler)
}

/// Builds a gRPC span exporter to `endpoint`, puts a batch processor in front
/// of it and makes the resulting tracer provider the process-wide one:
/// `opentelemetry_otlp::new_pipeline` through `OtlpTracePipeline::install_batch`
/// with `opentelemetry_sdk::runtime::Tokio`, and with a `BatchConfig` whose
/// queue size and delay are the ones given. Nothing is claimed of the result:
/// the exporter also reads the `OTEL_EXPORTER_OTLP_*` variables of the
/// process.
///
/// `install_batch` makes a channel of the queue size, a ticker of the delay
/// and a worker task, all at once. Tokio panics on a channel of no capacity
/// or of more than `usize::MAX >> 3`, on a ticker of no period, on a ticker
/// in a runtime without timers and on a task outside a runtime. The two
/// limits are therefore asked of the caller, and the call is made inside
/// `runtime`, entered with `Runtime::enter` for as long as the call lasts;
/// being an [`ExportRuntime`], it has its timers switched on.
/// The batch size, the export timeout and the number of concurrent exports
/// still follow the `OTEL_BSP_*` variables; they are only read inside the
/// worker task.
#[verifier::external_body]
pub(crate) fn install_batch_exporter(
    runtime: &ExportRuntime,
    endpoint: &str,
    settings: Config,
    max_queue_size: usize,
    scheduled_delay_millis: u64,
) -> (installed: Result<Tracer, TraceError>)
    requires
        0 < max_queue_size <= usize::MAX / 8,
        0 < scheduled_delay_millis,
{
    let batch = BatchConfig::default()
        .with_max_queue_size(max_queue_size)
        .with_scheduled_delay(Duration::from_millis(scheduled_delay_millis));
    let _inside = runtime.runtime.enter();
    opentelemetry_otlp::new_pipeline()
        .tracing()
        .with_exporter(opentelemetry_otlp::new_exporter().tonic().with_endpoint(endpoint))
        .with_trace_config(settings)
        .with_batch_config(batch)
        .install_batch(opentelemetry_sdk::runtime::Tokio)
}

/// Parses filter directives: `tracing_subscriber::filter::Builder::parse` on
/// `EnvFilter::builder()`. The parse reads nothing but its argument, so
/// whether it succeeds is a fixed property of the string.
///
/// The directives must hold ASCII only. The parser walks each directive
/// trimmed but cuts it untrimmed, so after leading white space a cut can fall
/// inside a longer character, and the cut panics.
#[verifier::external_body]
pub(crate) fn parse_filter(directives: &str) -> (parsed: Result<EnvFilter, ParseError>)
    requires
        vstd::string::is_ascii(directives),
    ensures
        parsed is Ok == directives_accepted(directives@),
{
    EnvFilter::builder().parse(directives)
}

/// Stacks the tracing bridge for `tracer`, the filter and a JSON formatter
/// with wall-clock timestamps on a registry, and makes the stack the
/// process-wide subscriber: `tracing_subscriber::registry` through
/// `SubscriberInitExt::try_init`. Nothing is claimed of the result. It fails
/// when the process already has a subscriber. It also fails when the process
/// already has a `log` logger, and then only after the stack has become the
/// subscriber.
#[verifier::external_body]
pub(crate) fn install_subscriber(
    tracer: Tracer,
    filter: EnvFilter,
    errors_as_exceptions: bool,
) -> (installed: Result<(), TryInitError>) {
    tracing_subscriber::registry()
        .with(
            tracing_opentelemetry::layer()
                .with_error_records_to_exceptions(errors_as_exceptions)
                .with_tracer(tracer),
        )
        .with(filter)
        .with(
            tracing_subscriber::fmt::layer().json().with_timer(
                tracing_subscriber::fmt::time::time(),
            ),
        )
        .try_init()
}

} // verus!
