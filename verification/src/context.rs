//! The identity of a span as it travels between services.

use vstd::prelude::*;

verus! {

/// What a propagator reads out of a carrier: the trace and span a request
/// claims to continue.
///
/// A context is always well formed. Whether it names a real span is a separate
/// question, answered by [`SpanContext::is_valid`]: a carrier without any
/// upstream identity yields the all-zero placeholder.
#[derive(Debug, PartialEq, Eq)]
pub struct SpanContext {
    /// Sixteen-byte trace identifier, big-endian; zero names no trace.
    pub trace_id: u128,
    /// Eight-byte span identifier, big-endian; zero names no span.
    pub span_id: u64,
    /// Trace flags; the lowest bit is the sampling decision.
    pub trace_flags: u8,
    /// Whether the context came from another process.
    pub is_remote: bool,
    /// Vendor state, in its header form.
    pub trace_state: String,
}

/// Mathematical value of a [`SpanContext`].
pub ghost struct SpanContextView {
    pub trace_id: u128,
    pub span_id: u64,
    pub trace_flags: u8,
    pub is_remote: bool,
    pub trace_state: Seq<char>,
}

impl SpanContextView {
    /// A context names a real span when neither identifier is zero.
    pub open spec fn is_valid(self) -> bool {
        self.trace_id != 0 && self.span_id != 0
    }

    /// The placeholder that stands for "no upstream span".
    pub open spec fn placeholder() -> SpanContextView {
        SpanContextView {
            trace_id: 0,
            span_id: 0,
            trace_flags: 0,
            is_remote: false,
            trace_state: Seq::empty(),
        }
    }
}

impl View for SpanContext {
    type V = SpanContextView;

    open spec fn view(&self) -> SpanContextView {
        SpanContextView {
            trace_id: self.trace_id,
            span_id: self.span_id,
            trace_flags: self.trace_flags,
            is_remote: self.is_remote,
            trace_state: self.trace_state@,
        }
    }
}

impl SpanContext {
    /// The placeholder context: no trace, no span, nothing sampled.
    pub fn placeholder() -> (context: SpanContext)
        ensures
            context@ == SpanContextView::placeholder(),
    {
        SpanContext {
            trace_id: 0,
            span_id: 0,
            trace_flags: 0,
            is_remote: false,
            trace_state: String::new(),
        }
    }

    /// Whether the context names a real span.
    pub fn is_valid(&self) -> (valid: bool)
        ensures
            valid == self@.is_valid(),
    {
        self.trace_id != 0 && self.span_id != 0
    }
}

impl Clone for SpanContext {
    fn clone(&self) -> (copy: SpanContext)
        ensures
            copy@ == self@,
    {
        SpanContext {
            trace_id: self.trace_id,
            span_id: self.span_id,
            trace_flags: self.trace_flags,
            is_remote: self.is_remote,
            trace_state: self.trace_state.clone(),
        }
    }
}

/// The placeholder never names a real span.
pub proof fn lemma_placeholder_is_not_valid()
    ensures
        !SpanContextView::placeholder().is_valid(),
{
}

} // verus!
