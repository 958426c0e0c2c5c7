//! The tracer provider: where finished spans go.
//!
//! It is set up once at startup. Where the exporter pipeline could be
//! built, finished spans are queued for export; where it could not, the
//! provider is a no-op sink that drops them. Tracing never fails a request.

use crate::span::{Span, SpanView};
use vstd::prelude::*;

verus! {

/// A tracer provider as contracts see it.
pub struct ProviderView {
    /// The name under which the service's spans are exported.
    pub service_name: Seq<char>,
    /// Finished spans are exported (`true`) or dropped (`false`).
    pub exporting: bool,
    /// `shutdown` has been called.
    pub shut_down: bool,
    /// The finished spans that wait for export, oldest first.
    pub queued: Seq<SpanView>,
}

impl ProviderView {
    /// A span that is handed over now will be queued.
    pub open spec fn accepts(self) -> bool {
        self.exporting && !self.shut_down
    }

    /// The provider after `span`, which was open, has been ended at `at`
    /// and handed over.
    pub open spec fn after_finish(self, span: SpanView, at: u64) -> ProviderView {
        if self.accepts() {
            ProviderView { queued: self.queued.push(span.ended_at(at)), ..self }
        } else {
            self
        }
    }
}

/// The tracer provider of one process.
pub struct TracerProvider {
    service_name: String,
    exporting: bool,
    shut_down: bool,
    queued: Vec<Span>,
}

/// The spans of a list as contracts see them, in order.
pub open spec fn span_views(spans: Seq<Span>) -> Seq<SpanView> {
    Seq::new(spans.len(), |i: int| spans[i]@)
}

impl View for TracerProvider {
    type V = ProviderView;

    closed spec fn view(&self) -> ProviderView {
        ProviderView {
            service_name: self.service_name@,
            exporting: self.exporting,
            shut_down: self.shut_down,
            queued: span_views(self.queued@),
        }
    }
}

impl TracerProvider {
    /// Only ended spans are queued.
    #[verifier::type_invariant]
    closed spec fn well_formed(self) -> bool {
        forall|i: int| 0 <= i < self.queued@.len() ==> (#[trigger] self.queued@[i])@.ended is Some
    }

    /// Sets the provider up for the service `service_name`.
    /// `pipeline_built` says whether the exporter pipeline could be built;
    /// where it could not, the provider drops every span.
    pub fn init(service_name: &str, pipeline_built: bool) -> (provider: TracerProvider)
        ensures
            provider@ == (ProviderView {
                service_name: service_name@,
                exporting: pipeline_built,
                shut_down: false,
                queued: Seq::empty(),
            }),
    {
        let provider = TracerProvider {
            service_name: service_name.to_owned(),
            exporting: pipeline_built,
            shut_down: false,
            queued: Vec::new(),
        };
        assert(provider@.queued =~= Seq::empty());
        provider
    }

    /// The name under which the service's spans are exported.
    pub fn service_name(&self) -> (r: String)
        ensures
            r@ == self@.service_name,
    {
        self.service_name.clone()
    }

    /// Whether finished spans are exported rather than dropped.
    pub fn is_exporting(&self) -> (r: bool)
        ensures
            r == self@.exporting,
    {
        self.exporting
    }

    /// Whether the provider has been shut down.
    pub fn is_shut_down(&self) -> (r: bool)
        ensures
            r == self@.shut_down,
    {
        self.shut_down
    }

    /// The sampling decision for a trace that starts here: sampled where
    /// its spans will be exported.
    pub fn default_sampled(&self) -> (r: bool)
        ensures
            r == self@.accepts(),
    {
        self.exporting && !self.shut_down
    }

    /// The number of finished spans that wait for export.
    pub fn queued_len(&self) -> (r: usize)
        ensures
            r == self@.queued.len(),
    {
        self.queued.len()
    }

    /// Ends `span` at `at` and hands it over: it is queued for export, or
    /// dropped where the provider does not export or has been shut down.
    pub fn finish(&mut self, span: Span, at: u64)
        requires
            span@.is_open(),
        ensures
            final(self)@ == old(self)@.after_finish(span@, at),
    {
        proof {
            use_type_invariant(&*self);
        }
        let mut span = span;
        span.end(at);
        if self.exporting && !self.shut_down {
            let mut queued = self.exchange(Vec::new(), false);
            queued.push(span);
            let _ = self.exchange(queued, false);
            assert(self@.queued =~= old(self)@.queued.push(span@));
        }
    }

    /// Puts `queued` in place of the queue and sets the shutdown mark; gives
    /// back the queue that was there.
    fn exchange(&mut self, queued: Vec<Span>, shut_down: bool) -> (previous: Vec<Span>)
        requires
            forall|i: int| 0 <= i < queued@.len() ==> (#[trigger] queued@[i])@.ended is Some,
        ensures
            previous == old(self).queued,
            forall|i: int| 0 <= i < previous@.len() ==> (#[trigger] previous@[i])@.ended is Some,
            final(self).queued == queued,
            final(self).shut_down == shut_down,
            final(self).exporting == old(self).exporting,
            final(self).service_name == old(self).service_name,
    {
        proof {
            use_type_invariant(&*self);
        }
        let mut taken = TracerProvider {
            service_name: String::new(),
            exporting: false,
            shut_down: false,
            queued: Vec::new(),
        };
        std::mem::swap(self, &mut taken);
        let TracerProvider { service_name, exporting, shut_down: _, queued: previous } = taken;
        *self = TracerProvider { service_name, exporting, shut_down, queued };
        previous
    }

    /// Takes the queued spans for export, oldest first. The queue is empty
    /// afterwards.
    pub fn take_queued(&mut self) -> (batch: Vec<Span>)
        ensures
            span_views(batch@) == old(self)@.queued,
            forall|i: int| 0 <= i < batch@.len() ==> (#[trigger] batch@[i])@.ended is Some,
            final(self)@ == (ProviderView { queued: Seq::empty(), ..old(self)@ }),
    {
        let shut_down = self.shut_down;
        let batch = self.exchange(Vec::new(), shut_down);
        assert(self@.queued =~= Seq::empty());
        batch
    }

    /// Shuts the provider down: the queued spans are returned for a last
    /// export, and every span handed over later is dropped.
    pub fn shutdown(&mut self) -> (batch: Vec<Span>)
        ensures
            span_views(batch@) == old(self)@.queued,
            forall|i: int| 0 <= i < batch@.len() ==> (#[trigger] batch@[i])@.ended is Some,
            final(self)@ == (ProviderView {
                shut_down: true,
                queued: Seq::empty(),
                ..old(self)@
            }),
    {
        let batch = self.exchange(Vec::new(), true);
        assert(self@.queued =~= Seq::empty());
        batch
    }
}

} // verus!
