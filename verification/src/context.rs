//! The span context: what one hop must hand to the next so that both are
//! recorded under the same trace.

use vstd::prelude::*;

verus! {

/// The identifying data of one span within one trace.
///
/// A trace identifier of zero is never valid. A span identifier of zero
/// names no span: such a context is the root that a new trace starts from.
#[derive(Clone, Copy, Debug, PartialEq, Eq, Structural)]
pub struct SpanContext {
    pub trace_id: u128,
    pub span_id: u64,
    pub sampled: bool,
}

impl SpanContext {
    /// The context carries a trace identifier.
    pub open spec fn is_valid(self) -> bool {
        self.trace_id != 0
    }

    /// The context names no span yet: a span started under it is the root
    /// of its trace.
    pub open spec fn is_root(self) -> bool {
        self.span_id == 0
    }

    /// The root of a new trace. `candidate` is taken as the trace
    /// identifier unless it is zero, which is replaced by one.
    pub open spec fn fresh_root(candidate: u128, sampled: bool) -> SpanContext {
        SpanContext { trace_id: if candidate == 0 { 1 } else { candidate }, span_id: 0, sampled }
    }

    /// The context of a span started under `self`: same trace, same
    /// sampling decision, and a span identifier that is neither zero nor
    /// the parent's. `candidate` is taken unless it is one of those two.
    pub open spec fn child(self, candidate: u64) -> SpanContext {
        SpanContext {
            trace_id: self.trace_id,
            span_id: if candidate != 0 && candidate != self.span_id {
                candidate
            } else if self.span_id != 1 {
                1
            } else {
                2
            },
            sampled: self.sampled,
        }
    }

    /// The root of a new trace: see `fresh_root`.
    pub fn new_root(candidate: u128, sampled: bool) -> (cx: SpanContext)
        ensures
            cx == Self::fresh_root(candidate, sampled),
            cx.is_valid(),
            cx.is_root(),
    {
        SpanContext { trace_id: if candidate == 0 { 1 } else { candidate }, span_id: 0, sampled }
    }

    /// The context of a span started under this one: see `child`.
    pub fn new_child(&self, candidate: u64) -> (cx: SpanContext)
        ensures
            cx == self.child(candidate),
            cx.trace_id == self.trace_id,
            cx.sampled == self.sampled,
            cx.span_id != 0,
            cx.span_id != self.span_id,
    {
        let span_id: u64 = if candidate != 0 && candidate != self.span_id {
            candidate
        } else if self.span_id != 1 {
            1
        } else {
            2
        };
        SpanContext { trace_id: self.trace_id, span_id, sampled: self.sampled }
    }

    /// Whether the context carries a trace identifier.
    pub fn valid(&self) -> (r: bool)
        ensures
            r == self.is_valid(),
    {
        self.trace_id != 0
    }

    /// Whether the context names no span yet.
    pub fn root(&self) -> (r: bool)
        ensures
            r == self.is_root(),
    {
        self.span_id == 0
    }
}

} // verus!
