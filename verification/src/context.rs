//! The causal identity of a span.

use vstd::prelude::*;

verus! {

/// What a [`TraceContext`] holds, as a plain value for specifications.
pub struct ContextModel {
    pub trace_id: u128,
    pub span_id: u64,
    pub parent_span_id: Option<u64>,
    pub sampled: bool,
}

impl ContextModel {
    /// A context is valid when neither its trace identifier nor its span
    /// identifier is all zero, and its parent, if it has one, is not all
    /// zero either: zero never names a trace or a span.
    pub open spec fn valid(self) -> bool {
        self.trace_id != 0 && self.span_id != 0 && self.parent_span_id != Some(0u64)
    }

    /// The context of a span opened under this one: the same trace and
    /// sampling decision, this span as the parent.
    pub open spec fn child(self, span_id: u64) -> ContextModel {
        ContextModel {
            trace_id: self.trace_id,
            span_id,
            parent_span_id: Some(self.span_id),
            sampled: self.sampled,
        }
    }
}

/// The place of a span in a causal tree: trace, span, parent span and the
/// sampling decision. A value of this type is always valid, and it cannot
/// be changed once made.
#[derive(Clone, Copy, Debug, PartialEq, Eq, Structural)]
pub struct TraceContext {
    trace_id: u128,
    span_id: u64,
    parent_span_id: Option<u64>,
    sampled: bool,
}

impl View for TraceContext {
    type V = ContextModel;

    closed spec fn view(&self) -> ContextModel {
        ContextModel {
            trace_id: self.trace_id,
            span_id: self.span_id,
            parent_span_id: self.parent_span_id,
            sampled: self.sampled,
        }
    }
}

impl TraceContext {
    #[verifier::type_invariant]
    spec fn inv(self) -> bool {
        self.trace_id != 0 && self.span_id != 0 && self.parent_span_id != Some(0u64)
    }

    /// Makes a context from its four parts. The parts are rejected unless
    /// they make a valid context: an all-zero trace identifier, span
    /// identifier or parent gives `None`.
    pub fn new(trace_id: u128, span_id: u64, parent_span_id: Option<u64>, sampled: bool) -> (r:
        Option<TraceContext>)
        ensures
            match r {
                Some(c) => c@ == (ContextModel { trace_id, span_id, parent_span_id, sampled })
                    && c@.valid(),
                None => !(ContextModel { trace_id, span_id, parent_span_id, sampled }).valid(),
            },
    {
        if trace_id == 0 || span_id == 0 {
            return None;
        }
        match parent_span_id {
            Some(p) => {
                if p == 0 {
                    return None;
                }
            },
            None => {},
        }
        Some(TraceContext { trace_id, span_id, parent_span_id, sampled })
    }

    /// The context of a span with identifier `span_id` opened under this
    /// one; `None` for the identifier zero, which names no span.
    pub fn child(&self, span_id: u64) -> (r: Option<TraceContext>)
        ensures
            match r {
                Some(c) => span_id != 0 && c@ == self@.child(span_id) && c@.valid(),
                None => span_id == 0,
            },
    {
        proof {
            use_type_invariant(self);
        }
        if span_id == 0 {
            None
        } else {
            Some(
                TraceContext {
                    trace_id: self.trace_id,
                    span_id,
                    parent_span_id: Some(self.span_id),
                    sampled: self.sampled,
                },
            )
        }
    }

    /// The trace identifier, which is never zero.
    pub fn trace_id(&self) -> (r: u128)
        ensures
            r == self@.trace_id,
            r != 0,
            self@.valid(),
    {
        proof {
            use_type_invariant(self);
        }
        self.trace_id
    }

    /// The span identifier, which is never zero.
    pub fn span_id(&self) -> (r: u64)
        ensures
            r == self@.span_id,
            r != 0,
    {
        proof {
            use_type_invariant(self);
        }
        self.span_id
    }

    /// The identifier of the parent span, which is never zero.
    pub fn parent_span_id(&self) -> (r: Option<u64>)
        ensures
            r == self@.parent_span_id,
            r != Some(0u64),
    {
        proof {
            use_type_invariant(self);
        }
        self.parent_span_id
    }

    pub fn sampled(&self) -> (r: bool)
        ensures
            r == self@.sampled,
    {
        self.sampled
    }

    /// Two contexts are the same value exactly when their four parts agree.
    pub fn same(&self, other: &TraceContext) -> (r: bool)
        ensures
            r == (self@ == other@),
            r == (*self == *other),
    {
        *self == *other
    }
}

} // verus!
