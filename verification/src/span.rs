//! The record of one request's span, and the two hooks that write it.

use crate::bindings::{duration_nanos, extract_span_context};
use crate::context::{SpanContext, SpanContextView};
use crate::message::{Request, Response};
use std::time::Duration;
use vstd::prelude::*;

verus! {

/// Name under which every request span is opened.
pub const SPAN_NAME: &'static str = "request";

/// What becomes known of a request once its response is ready.
#[derive(Debug, Clone, Copy, PartialEq, Eq)]
pub struct Outcome {
    /// Status code of the response.
    pub status: u16,
    /// Time from the request's arrival to its response, in nanoseconds.
    pub latency: u128,
}

/// Where a span stands in its life. A span that goes out of scope is closed;
/// no value is left to be in that state.
#[derive(Debug, Clone, Copy, PartialEq, Eq, Structural)]
pub enum SpanState {
    /// Opened for a request; status and latency are still empty.
    Created,
    /// Status and latency have been recorded.
    Annotated,
}

/// The span of one request.
///
/// Method, target and version are fixed when the span is opened. Status and
/// latency start empty and are filled together by [`on_response`]. The parent
/// is the upstream span that the request continues; a span without one is the
/// root of a new trace.
#[derive(Debug, PartialEq, Eq)]
pub struct Span {
    method: String,
    uri: String,
    version: String,
    parent: Option<SpanContext>,
    outcome: Option<Outcome>,
}

/// Mathematical value of a [`Span`].
pub ghost struct SpanView {
    pub name: Seq<char>,
    pub method: Seq<char>,
    pub uri: Seq<char>,
    pub version: Seq<char>,
    pub parent: Option<SpanContextView>,
    pub status: Option<u16>,
    pub latency: Option<u128>,
}

impl SpanView {
    /// A root span has no parent.
    pub open spec fn is_root(self) -> bool {
        self.parent is None
    }

    /// The state that the recorded fields put the span in.
    pub open spec fn state(self) -> SpanState {
        if self.status is Some && self.latency is Some {
            SpanState::Annotated
        } else {
            SpanState::Created
        }
    }
}

/// The parent that an extracted context gives a span: the context itself when
/// it names a real span, none when it is only the placeholder.
pub open spec fn parent_of(extracted: SpanContextView) -> Option<SpanContextView> {
    if extracted.is_valid() {
        Some(extracted)
    } else {
        None
    }
}

/// The span that is opened for `request` when its headers yield `extracted`.
pub open spec fn opened(request: Request<'_>, extracted: SpanContextView) -> SpanView {
    SpanView {
        name: SPAN_NAME@,
        method: request.method@,
        uri: request.uri@,
        version: request.version@,
        parent: parent_of(extracted),
        status: None,
        latency: None,
    }
}

/// The span `span` once `outcome` is recorded on it.
pub open spec fn annotated(span: SpanView, outcome: Outcome) -> SpanView {
    SpanView { status: Some(outcome.status), latency: Some(outcome.latency), ..span }
}

/// The outcome of a request that ended in `response` after `latency`.
pub open spec fn outcome_of(response: Response, latency: Duration) -> Outcome {
    Outcome { status: response.status, latency: duration_nanos(latency) }
}

impl Outcome {
    /// The outcome of a request that ended in `response` after `latency`:
    /// the status code as it is, the latency in nanoseconds.
    pub fn of(response: &Response, latency: Duration) -> (outcome: Outcome)
        ensures
            outcome == outcome_of(*response, latency),
    {
        Outcome { status: response.status, latency: latency.as_nanos() }
    }
}

impl View for Span {
    type V = SpanView;

    closed spec fn view(&self) -> SpanView {
        SpanView {
            name: SPAN_NAME@,
            method: self.method@,
            uri: self.uri@,
            version: self.version@,
            parent: match self.parent {
                Some(context) => Some(context@),
                None => None,
            },
            status: match self.outcome {
                Some(outcome) => Some(outcome.status),
                None => None,
            },
            latency: match self.outcome {
                Some(outcome) => Some(outcome.latency),
                None => None,
            },
        }
    }
}

impl Span {
    /// A span is only ever given a parent that names a real span.
    #[verifier::type_invariant]
    spec fn parent_is_real(&self) -> bool {
        match self.parent {
            Some(context) => context@.is_valid(),
            None => true,
        }
    }

    /// Opens the span of `request`, given the context that a propagator
    /// extracted from its headers.
    ///
    /// A context that names a real span becomes the parent. The placeholder
    /// that stands for "nothing upstream" is dropped, and the span is a root.
    pub fn open(request: &Request<'_>, extracted: SpanContext) -> (span: Span)
        ensures
            span@ == opened(*request, extracted@),
    {
        let parent = if extracted.is_valid() {
            Some(extracted)
        } else {
            None
        };
        Span {
            method: request.method.to_owned(),
            uri: request.uri.to_owned(),
            version: request.version.to_owned(),
            parent,
            outcome: None,
        }
    }

    /// Records the outcome of the request. An outcome recorded earlier is
    /// replaced.
    pub fn annotate(&mut self, outcome: Outcome)
        ensures
            final(self)@ == annotated(old(self)@, outcome),
    {
        proof {
            use_type_invariant(&*self);
        }
        self.outcome = Some(outcome);
    }

    /// Name of the span.
    pub fn name(&self) -> (name: &'static str)
        ensures
            name@ == self@.name,
    {
        SPAN_NAME
    }

    /// Method of the request.
    pub fn method(&self) -> (method: &str)
        ensures
            method@ == self@.method,
    {
        self.method.as_str()
    }

    /// Target of the request.
    pub fn uri(&self) -> (uri: &str)
        ensures
            uri@ == self@.uri,
    {
        self.uri.as_str()
    }

    /// Protocol version of the request.
    pub fn version(&self) -> (version: &str)
        ensures
            version@ == self@.version,
    {
        self.version.as_str()
    }

    /// The upstream span that this one continues, if any. It always names a
    /// real span.
    pub fn parent(&self) -> (parent: Option<&SpanContext>)
        ensures
            parent is Some == self@.parent is Some,
            parent matches Some(context) ==> self@.parent == Some(context@) && context@.is_valid(),
    {
        proof {
            use_type_invariant(self);
        }
        self.parent.as_ref()
    }

    /// Whether the span starts a new trace.
    pub fn is_root(&self) -> (root: bool)
        ensures
            root == self@.is_root(),
    {
        self.parent.is_none()
    }

    /// Status code of the response, once recorded.
    pub fn status(&self) -> (status: Option<u16>)
        ensures
            status == self@.status,
    {
        match self.outcome {
            Some(outcome) => Some(outcome.status),
            None => None,
        }
    }

    /// Latency of the request in nanoseconds, once recorded.
    pub fn latency(&self) -> (latency: Option<u128>)
        ensures
            latency == self@.latency,
    {
        match self.outcome {
            Some(outcome) => Some(outcome.latency),
            None => None,
        }
    }

    /// Where the span stands in its life.
    pub fn state(&self) -> (state: SpanState)
        ensures
            state == self@.state(),
    {
        match self.outcome {
            Some(_) => SpanState::Annotated,
            None => SpanState::Created,
        }
    }
}

impl Clone for Span {
    fn clone(&self) -> (copy: Span)
        ensures
            copy@ == self@,
    {
        proof {
            use_type_invariant(self);
        }
        Span {
            method: self.method.clone(),
            uri: self.uri.clone(),
            version: self.version.clone(),
            parent: match &self.parent {
                Some(context) => Some(context.clone()),
                None => None,
            },
            outcome: self.outcome,
        }
    }
}

/// Opens the span of an inbound request.
///
/// The span is named `request` and carries the method, target and version of
/// the request; status and latency are empty. The process-wide propagator is
/// run over the headers, and the span is opened on what it returns, as
/// [`Span::open`] describes. Which context that is rests with the propagator,
/// so the contract holds for whatever it yields.
pub fn make_span(request: &Request<'_>) -> (span: Span)
    ensures
        exists|extracted: SpanContextView| span@ == #[trigger] opened(*request, extracted),
        span@.parent matches Some(context) ==> context.is_valid(),
        span@.state() == SpanState::Created,
{
    let extracted = extract_span_context(request.headers);
    let span = Span::open(request, extracted);
    proof {
        assert(span@ == opened(*request, extracted@));
    }
    span
}

/// Records the outcome of a request on its span: the status code of the
/// response and the latency in nanoseconds.
///
/// Nothing else of the span changes, and the span stays open. The hook is
/// meant to run once per span; run again, it replaces what was recorded.
pub fn on_response(response: &Response, latency: Duration, span: &mut Span)
    ensures
        final(span)@ == annotated(old(span)@, outcome_of(*response, latency)),
        final(span)@.status is Some,
        final(span)@.latency is Some,
        final(span)@.state() == SpanState::Annotated,
{
    span.annotate(Outcome::of(response, latency));
}

/// Every span is named `request`, and its status and latency are either both
/// empty or both filled.
pub proof fn lemma_outcome_is_recorded_whole(span: Span)
    ensures
        span@.name == SPAN_NAME@,
        span@.status is Some <==> span@.latency is Some,
{
}

/// A context that names no real span is never made the parent: the span is
/// the root of a new trace.
pub proof fn lemma_placeholder_context_opens_root(request: Request<'_>, extracted: SpanContextView)
    requires
        !extracted.is_valid(),
    ensures
        opened(request, extracted).is_root(),
{
}

/// A context that names a real span becomes the parent, unchanged.
pub proof fn lemma_valid_context_becomes_parent(request: Request<'_>, extracted: SpanContextView)
    requires
        extracted.is_valid(),
    ensures
        opened(request, extracted).parent == Some(extracted),
        !opened(request, extracted).is_root(),
{
}

/// Where the propagator finds nothing and hands back the placeholder, the
/// span is a root.
pub proof fn lemma_nothing_extracted_opens_root(request: Request<'_>)
    ensures
        opened(request, SpanContextView::placeholder()).is_root(),
{
}

/// A span is opened in the state `Created`, with status and latency empty,
/// whatever was extracted.
pub proof fn lemma_opened_span_is_created(request: Request<'_>, extracted: SpanContextView)
    ensures
        opened(request, extracted).state() == SpanState::Created,
        opened(request, extracted).status is None,
        opened(request, extracted).latency is None,
{
}

/// Recording an outcome fills status and latency and puts the span in the
/// state `Annotated`, whatever state it was in; what was fixed when the span
/// was opened stays as it was.
pub proof fn lemma_annotation_fills_outcome(span: SpanView, outcome: Outcome)
    ensures
        annotated(span, outcome).status == Some(outcome.status),
        annotated(span, outcome).latency == Some(outcome.latency),
        annotated(span, outcome).state() == SpanState::Annotated,
        annotated(span, outcome).name == span.name,
        annotated(span, outcome).method == span.method,
        annotated(span, outcome).uri == span.uri,
        annotated(span, outcome).version == span.version,
        annotated(span, outcome).parent == span.parent,
{
}

/// Of two outcomes recorded on one span, the later one stands.
pub proof fn lemma_later_annotation_stands(span: SpanView, first: Outcome, second: Outcome)
    ensures
        annotated(annotated(span, first), second) == annotated(span, second),
{
}

} // verus!
