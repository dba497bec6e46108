//! The identifiers that let a span attach itself causally to a prior one,
//! and the two spans a receiver derives for each delivered item.

use vstd::prelude::*;

verus! {

/// A trace context: trace identifier, span identifier and sampling decision.
/// Zero identifiers mark an absent or invalid context, so a usable context
/// has both identifiers nonzero.
#[derive(Clone, Copy, Debug, PartialEq, Eq, Structural)]
pub struct TraceContext {
    pub trace_id: u128,
    pub span_id: u64,
    pub sampled: bool,
}

impl TraceContext {
    /// A context usable as a parent: both identifiers nonzero.
    pub open spec fn is_valid(self) -> bool {
        self.trace_id != 0 && self.span_id != 0
    }

    pub fn new(trace_id: u128, span_id: u64, sampled: bool) -> (r: TraceContext)
        ensures
            r == (TraceContext { trace_id, span_id, sampled }),
    {
        TraceContext { trace_id, span_id, sampled }
    }
}

/// One span of the receive-side hierarchy: its own context and the context
/// of its parent, if it has one.
#[derive(Clone, Copy, Debug, PartialEq, Eq, Structural)]
pub struct SpanNode {
    pub context: TraceContext,
    pub parent: Option<TraceContext>,
}

/// What the receive span must be for a given remote parent: parented to
/// the propagated context when one arrived, an orphaned root otherwise;
/// `fresh` is the context the tracing provider generated for the new span.
pub open spec fn recv_span_spec(remote: Option<TraceContext>, fresh: TraceContext) -> SpanNode {
    match remote {
        Some(p) => SpanNode {
            context: TraceContext {
                trace_id: p.trace_id,
                span_id: fresh.span_id,
                sampled: p.sampled,
            },
            parent: Some(p),
        },
        None => SpanNode { context: fresh, parent: None },
    }
}

/// What the consumer span must be: a child of the receive span, in the
/// receive span's trace, never of the sender's span directly.
pub open spec fn consumer_span_spec(recv: SpanNode, fresh: TraceContext) -> SpanNode {
    SpanNode {
        context: TraceContext {
            trace_id: recv.context.trace_id,
            span_id: fresh.span_id,
            sampled: recv.context.sampled,
        },
        parent: Some(recv.context),
    }
}

/// The receive span: parented to the context the sender propagated, or an
/// orphaned root when no usable context arrived; when a remote parent
/// exists the span stays in the parent's trace and keeps its sampling
/// decision.
pub fn recv_span(remote: Option<&TraceContext>, fresh: TraceContext) -> (r: SpanNode)
    ensures
        r == recv_span_spec(
            match remote {
                Some(p) => Some(*p),
                None => None,
            },
            fresh,
        ),
{
    match remote {
        Some(p) => SpanNode {
            context: TraceContext {
                trace_id: p.trace_id,
                span_id: fresh.span_id,
                sampled: p.sampled,
            },
            parent: Some(*p),
        },
        None => SpanNode { context: fresh, parent: None },
    }
}

/// The consumer span, for the work the caller performs with the payload:
/// always a child of the receive span, never of the sender's span
/// directly.
pub fn consumer_span(recv: &SpanNode, fresh: TraceContext) -> (r: SpanNode)
    ensures
        r == consumer_span_spec(*recv, fresh),
{
    SpanNode {
        context: TraceContext {
            trace_id: recv.context.trace_id,
            span_id: fresh.span_id,
            sampled: recv.context.sampled,
        },
        parent: Some(recv.context),
    }
}

} // verus!
