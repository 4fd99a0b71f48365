//! Installing the pipeline for the whole process.

use crate::bindings::{
    directives_accepted, install_batch_exporter, install_subscriber,
    install_trace_context_propagator, keep_runtime, parse_filter, start_runtime, stop_runtime,
    trace_settings,
};
use crate::config::{TracingConfig, FILTER_DIRECTIVES};
use vstd::prelude::*;
use vstd::string::to_string_from_display_ensures;
use vstd::utf8::is_ascii_chars;

verus! {

/// The step at which an installation failed.
#[derive(Debug, Clone, Copy, PartialEq, Eq, Structural)]
pub enum InitErrorKind {
    /// The exporter could not be built: the batch settings are out of range,
    /// no runtime could be started for it, or the endpoint is not an address
    /// the transport accepts.
    Exporter,
    /// The filter directives are malformed.
    Filter,
    /// The subscriber step failed: the process already has a subscriber. The
    /// step also fails where the process already has a `log` logger; the
    /// subscriber of this attempt is then installed all the same.
    AlreadyInitialized,
}

/// Why the pipeline could not be installed.
#[derive(Debug, Clone, PartialEq, Eq)]
pub struct InitError {
    /// The step that failed.
    pub kind: InitErrorKind,
    /// What the failed step reported, as text.
    pub cause: String,
}

/// Cause given where the queue size or the delay is out of range.
pub const BATCH_OUT_OF_RANGE: &'static str = "the queue size or the delay is out of range";

/// Number of threads that run the exporter.
pub const EXPORT_WORKERS: usize = 1;

/// Cause given where the directives hold a character outside ASCII.
pub const NOT_ASCII: &'static str = "the filter directives hold a character outside ASCII";

/// The sentence that goes with each kind of error.
pub open spec fn message_of(kind: InitErrorKind) -> Seq<char> {
    match kind {
        InitErrorKind::Exporter => "the span exporter could not be built"@,
        InitErrorKind::Filter => "the filter directives are malformed"@,
        InitErrorKind::AlreadyInitialized => "a global subscriber is already installed"@,
    }
}

impl InitError {
    /// A sentence for the kind of error. The cause is not part of it.
    pub fn message(&self) -> (message: &'static str)
        ensures
            message@ == message_of(self.kind),
    {
        match self.kind {
            InitErrorKind::Exporter => "the span exporter could not be built",
            InitErrorKind::Filter => "the filter directives are malformed",
            InitErrorKind::AlreadyInitialized => "a global subscriber is already installed",
        }
    }
}

/// The result of an installation with the causes left out.
pub open spec fn kind_of(result: Result<(), InitError>) -> Result<(), InitErrorKind> {
    match result {
        Ok(()) => Ok(()),
        Err(error) => Err(error.kind),
    }
}

/// Whether directives get through the filter step: they hold ASCII only, and
/// they parse. Directives with other characters are turned away unparsed,
/// because the parser cuts a directive at offsets that only line up on ASCII.
pub open spec fn directives_usable(directives: Seq<char>) -> bool {
    is_ascii_chars(directives) && directives_accepted(directives)
}

/// What an attempt to install returns, given how its three steps went: the
/// first step that failed names the error, and an attempt whose steps all
/// went through succeeds. A step after a failed one is never taken, so it has
/// no say.
pub open spec fn attempt(exporter: bool, directives: bool, subscriber: bool) -> Result<
    (),
    InitErrorKind,
> {
    if !exporter {
        Err(InitErrorKind::Exporter)
    } else if !directives {
        Err(InitErrorKind::Filter)
    } else if !subscriber {
        Err(InitErrorKind::AlreadyInitialized)
    } else {
        Ok(())
    }
}

/// The result of one step. A step that failed gives an error of the kind
/// that names the step, with the text that the step's own error displays as
/// its cause.
pub fn or_fail<T, E: core::fmt::Display>(step: Result<T, E>, kind: InitErrorKind) -> (named:
    Result<T, InitError>)
    ensures
        step matches Ok(value) ==> named == Ok::<T, InitError>(value),
        step matches Err(error) ==> named matches Err(failure) && failure.kind == kind
            && to_string_from_display_ensures::<E>(&error, failure.cause),
{
    match step {
        Ok(value) => Ok(value),
        Err(error) => Err(InitError { kind, cause: error.to_string() }),
    }
}

/// Installs the pipeline that `config` describes, for the whole process.
///
/// Settings whose queue size or delay is out of range are turned away before
/// anything is touched. Otherwise, in order: a runtime of its own is started
/// for the exporter, so that the caller needs none; the W3C trace-context
/// propagator becomes the process-wide propagator; a batching OTLP exporter
/// to `config.endpoint` is built on that runtime, with the service name and
/// version as resource attributes and `config.sampling` as sampler, and its
/// tracer provider becomes the process-wide one; the filter directives are
/// parsed, unless they hold a character outside ASCII; and a subscriber made
/// of the tracing bridge, the filter and a JSON formatter with wall-clock
/// timestamps becomes the process-wide subscriber.
///
/// The first step that fails ends the attempt and names the error, as
/// [`attempt`] lays out; what was installed before it stays installed, and
/// nothing is retried. Once the exporter is built its runtime runs for as
/// long as the process does; where it is not, the runtime is stopped. Whether
/// the exporter is built and whether the subscriber is taken rest with the
/// process, so the result is stated for either way they may go; whether the
/// directives get through is fixed by them. The subscriber step also fails
/// where the process has a `log` logger, though the subscriber is installed
/// by then. The error carries what the failed step reported.
pub fn install(config: &TracingConfig) -> (installed: Result<(), InitError>)
    ensures
        exists|exporter: bool, subscriber: bool|
            kind_of(installed) == #[trigger] attempt(
                exporter,
                directives_usable(config.filter@),
                subscriber,
            ),
        !config@.batch_in_range() ==> (installed matches Err(error) && error.kind
            == InitErrorKind::Exporter && error.cause@ == BATCH_OUT_OF_RANGE@),
        installed matches Err(error) ==> error.kind == InitErrorKind::Filter && !is_ascii_chars(
            config.filter@,
        ) ==> error.cause@ == NOT_ASCII@,
{
    let ghost usable = directives_usable(config.filter@);
    assert(attempt(false, usable, false) == Err::<(), InitErrorKind>(InitErrorKind::Exporter));
    if !config.batch_in_range() {
        return Err(
            InitError { kind: InitErrorKind::Exporter, cause: BATCH_OUT_OF_RANGE.to_owned() },
        );
    }
    let runtime = match or_fail(start_runtime(EXPORT_WORKERS), InitErrorKind::Exporter) {
        Ok(runtime) => runtime,
        Err(error) => {
            return Err(error);
        },
    };
    install_trace_context_propagator();
    let settings = trace_settings(
        config.service_name.as_str(),
        config.service_version.as_str(),
        config.sampling,
    );
    let built = install_batch_exporter(
        &runtime,
        config.endpoint.as_str(),
        settings,
        config.max_queue_size,
        config.scheduled_delay_millis,
    );
    let tracer = match or_fail(built, InitErrorKind::Exporter) {
        Ok(tracer) => {
            keep_runtime(runtime);
            tracer
        },
        Err(error) => {
            stop_runtime(runtime);
            return Err(error);
        },
    };
    let directives = config.filter.as_str();
    if !directives.is_ascii() {
        assert(attempt(true, usable, false) == Err::<(), InitErrorKind>(InitErrorKind::Filter));
        return Err(InitError { kind: InitErrorKind::Filter, cause: NOT_ASCII.to_owned() });
    }
    let filter = match or_fail(parse_filter(directives), InitErrorKind::Filter) {
        Ok(filter) => filter,
        Err(error) => {
            assert(attempt(true, usable, false) == Err::<(), InitErrorKind>(error.kind));
            return Err(error);
        },
    };
    let taken = install_subscriber(tracer, filter, config.errors_as_exceptions);
    let installed = or_fail(taken, InitErrorKind::AlreadyInitialized);
    assert(kind_of(installed) == attempt(true, usable, installed is Ok));
    installed
}

/// Initialises tracing for the process: resolves the settings as
/// [`TracingConfig::resolve`] describes and installs them as [`install`]
/// describes, so the result is that of an attempt with the directives
/// [`FILTER_DIRECTIVES`].
///
/// It is meant to run once, at startup; the caller need not be inside a
/// runtime. A second call builds the exporter again, finds the subscriber of
/// the first and fails: with [`InitErrorKind::AlreadyInitialized`] where the
/// exporter is built again, with [`InitErrorKind::Exporter`] where it is not.
pub fn init_tracing(
    service_name: Option<&str>,
    otlp_endpoint: Option<&str>,
) -> (initialized: Result<(), InitError>)
    ensures
        exists|exporter: bool, subscriber: bool|
            kind_of(initialized) == #[trigger] attempt(
                exporter,
                directives_accepted(FILTER_DIRECTIVES@),
                subscriber,
            ),
{
    let config = TracingConfig::resolve(service_name, otlp_endpoint);
    proof {
        lemma_own_directives_are_ascii();
    }
    install(&config)
}

/// The directives that this crate installs hold ASCII only.
pub proof fn lemma_own_directives_are_ascii()
    ensures
        is_ascii_chars(FILTER_DIRECTIVES@),
{
    reveal_strlit("info,otel::tracing=trace,otel=debug");
}

/// An attempt succeeds exactly when all three steps went through.
pub proof fn lemma_success_needs_every_step(exporter: bool, directives: bool, subscriber: bool)
    ensures
        attempt(exporter, directives, subscriber) is Ok <==> exporter && directives && subscriber,
{
}

/// An attempt that finds a subscriber already there is an error, however the
/// steps before it went; where they went through, the error is
/// `AlreadyInitialized`.
pub proof fn lemma_subscriber_conflict_is_an_error(exporter: bool, directives: bool)
    ensures
        attempt(exporter, directives, false) is Err,
        exporter && directives ==> attempt(exporter, directives, false) == Err::<
            (),
            InitErrorKind,
        >(InitErrorKind::AlreadyInitialized),
{
}

} // verus!
