//! The settings of the export pipeline, and how they follow from what the
//! caller supplies.

use crate::bindings::default_otlp_endpoint;
use vstd::prelude::*;

verus! {

/// Name of this package. A service that gives no name of its own reports
/// under this one.
pub const PACKAGE_NAME: &'static str = "request_tracing";

/// Version of this package, reported as the version of the service.
pub const PACKAGE_VERSION: &'static str = "0.1.0";

/// Address of a collector on the local machine, used where the caller names
/// no endpoint.
pub const DEFAULT_ENDPOINT: &'static str = "http://localhost:4318";

/// Verbosity per component: `info` everywhere, with the tracing bridge's own
/// diagnostics turned up.
pub const FILTER_DIRECTIVES: &'static str = "info,otel::tracing=trace,otel=debug";

/// Number of finished spans that may wait for export where the caller sets
/// no other; spans that find the queue full are dropped.
pub const DEFAULT_MAX_QUEUE_SIZE: usize = 2048;

/// Milliseconds between two exports where the caller sets no other.
pub const DEFAULT_SCHEDULED_DELAY_MILLIS: u64 = 5000;

/// Which spans are kept for export.
#[derive(Debug, Clone, Copy, PartialEq, Eq, Structural)]
pub enum Sampling {
    /// Every span is kept.
    AlwaysOn,
    /// A span with a valid parent follows the decision made for its parent; a
    /// root span is kept.
    ParentBased,
}

/// Everything the pipeline is installed with.
#[derive(Debug, Clone, PartialEq, Eq)]
pub struct TracingConfig {
    /// Value of the `service.name` resource attribute.
    pub service_name: String,
    /// Value of the `service.version` resource attribute.
    pub service_version: String,
    /// Address of the collector that spans are exported to.
    pub endpoint: String,
    /// Sampling policy of the tracer.
    pub sampling: Sampling,
    /// Filter directives for log and span verbosity.
    pub filter: String,
    /// Whether error values recorded on a span are turned into exception
    /// events.
    pub errors_as_exceptions: bool,
    /// Number of finished spans that may wait for export. It has to be
    /// positive and at most an eighth of `usize::MAX`.
    pub max_queue_size: usize,
    /// Milliseconds between two exports. It has to be positive.
    pub scheduled_delay_millis: u64,
}

/// Mathematical value of a [`TracingConfig`].
pub ghost struct TracingConfigView {
    pub service_name: Seq<char>,
    pub service_version: Seq<char>,
    pub endpoint: Seq<char>,
    pub sampling: Sampling,
    pub filter: Seq<char>,
    pub errors_as_exceptions: bool,
    pub max_queue_size: usize,
    pub scheduled_delay_millis: u64,
}

impl TracingConfigView {
    /// Whether the batch processor can be built with the queue size and the
    /// delay: neither is zero, and the queue is no longer than the channel
    /// underneath can be.
    pub open spec fn batch_in_range(self) -> bool {
        0 < self.max_queue_size <= usize::MAX / 8 && 0 < self.scheduled_delay_millis
    }
}

impl View for TracingConfig {
    type V = TracingConfigView;

    open spec fn view(&self) -> TracingConfigView {
        TracingConfigView {
            service_name: self.service_name@,
            service_version: self.service_version@,
            endpoint: self.endpoint@,
            sampling: self.sampling,
            filter: self.filter@,
            errors_as_exceptions: self.errors_as_exceptions,
            max_queue_size: self.max_queue_size,
            scheduled_delay_millis: self.scheduled_delay_millis,
        }
    }
}

/// The text of an optional string.
pub open spec fn text_of(value: Option<&str>) -> Option<Seq<char>> {
    match value {
        Some(text) => Some(text@),
        None => None,
    }
}

/// The settings that follow from an optional service name and an optional
/// endpoint: what is given is taken as it is, what is missing falls back to
/// the package name and to the local collector. The rest is fixed.
pub open spec fn resolved(
    service_name: Option<Seq<char>>,
    endpoint: Option<Seq<char>>,
) -> TracingConfigView {
    TracingConfigView {
        service_name: match service_name {
            Some(name) => name,
            None => PACKAGE_NAME@,
        },
        service_version: PACKAGE_VERSION@,
        endpoint: match endpoint {
            Some(address) => address,
            None => DEFAULT_ENDPOINT@,
        },
        sampling: Sampling::ParentBased,
        filter: FILTER_DIRECTIVES@,
        errors_as_exceptions: true,
        max_queue_size: DEFAULT_MAX_QUEUE_SIZE,
        scheduled_delay_millis: DEFAULT_SCHEDULED_DELAY_MILLIS,
    }
}

impl TracingConfig {
    /// Resolves the settings for a service. Neither input is checked: any
    /// string is taken as it is and left to the exporter to judge.
    pub fn resolve(
        service_name: Option<&str>,
        otlp_endpoint: Option<&str>,
    ) -> (config: TracingConfig)
        ensures
            config@ == resolved(text_of(service_name), text_of(otlp_endpoint)),
    {
        let service_name = match service_name {
            Some(name) => name.to_owned(),
            None => PACKAGE_NAME.to_owned(),
        };
        let endpoint = match otlp_endpoint {
            Some(address) => address.to_owned(),
            None => default_otlp_endpoint().to_owned(),
        };
        TracingConfig {
            service_name,
            service_version: PACKAGE_VERSION.to_owned(),
            endpoint,
            sampling: Sampling::ParentBased,
            filter: FILTER_DIRECTIVES.to_owned(),
            errors_as_exceptions: true,
            max_queue_size: DEFAULT_MAX_QUEUE_SIZE,
            scheduled_delay_millis: DEFAULT_SCHEDULED_DELAY_MILLIS,
        }
    }

    /// Whether the batch processor can be built with the queue size and the
    /// delay.
    pub fn batch_in_range(&self) -> (in_range: bool)
        ensures
            in_range == self@.batch_in_range(),
    {
        0 < self.max_queue_size && self.max_queue_size <= usize::MAX / 8
            && 0 < self.scheduled_delay_millis
    }
}

/// The settings that [`TracingConfig::resolve`] gives are in range, whatever
/// the service name and the endpoint.
pub proof fn lemma_resolved_batch_is_in_range(
    service_name: Option<Seq<char>>,
    endpoint: Option<Seq<char>>,
)
    ensures
        resolved(service_name, endpoint).batch_in_range(),
{
}

/// A service that names itself reports under that name, whatever the endpoint.
pub proof fn lemma_given_service_name_is_kept(name: Seq<char>, endpoint: Option<Seq<char>>)
    ensures
        resolved(Some(name), endpoint).service_name == name,
{
}

/// A service that gives no name reports under the package name, whatever the
/// endpoint.
pub proof fn lemma_missing_service_name_is_package_name(endpoint: Option<Seq<char>>)
    ensures
        resolved(None, endpoint).service_name == PACKAGE_NAME@,
{
}

} // verus!
