//! One timed unit of work within a trace, from its start to its single end.

use crate::context::SpanContext;
use crate::text::text_of;
use vstd::prelude::*;

verus! {

/// The name under which a recorded failure appears among a span's events.
pub const FAILURE_EVENT: &'static str = "exception";

/// Something that happened while a span was open.
pub struct Event {
    pub name: String,
    pub at: u64,
}

/// An event as contracts see it.
pub struct EventView {
    pub name: Seq<char>,
    pub at: u64,
}

impl View for Event {
    type V = EventView;

    open spec fn view(&self) -> EventView {
        EventView { name: self.name@, at: self.at }
    }
}

impl Clone for Event {
    fn clone(&self) -> (r: Event)
        ensures
            r@ == self@,
    {
        Event { name: self.name.clone(), at: self.at }
    }
}

/// A span as contracts see it.
pub struct SpanView {
    /// The span's own context.
    pub context: SpanContext,
    /// The context the span was started under; `None` for the root span of
    /// a trace.
    pub parent: Option<SpanContext>,
    /// The name of the operation.
    pub name: Seq<char>,
    /// Milliseconds since the epoch at which the span was started.
    pub started: u64,
    /// Milliseconds since the epoch at which the span was ended; `None`
    /// while it is open.
    pub ended: Option<u64>,
    /// What happened while the span was open, oldest first.
    pub events: Seq<EventView>,
    /// The cause of the failure recorded last, if one was recorded.
    pub failure: Option<Seq<char>>,
}

impl SpanView {
    /// The span is open: it has not been ended.
    pub open spec fn is_open(self) -> bool {
        self.ended is None
    }

    /// The span after `name` was recorded at `at`.
    pub open spec fn with_event(self, name: Seq<char>, at: u64) -> SpanView {
        SpanView { events: self.events.push(EventView { name, at }), ..self }
    }

    /// The span after a failure with the given cause was recorded at `at`:
    /// a failure event is appended and the cause is kept.
    pub open spec fn with_failure(self, cause: Seq<char>, at: u64) -> SpanView {
        SpanView {
            events: self.events.push(EventView { name: FAILURE_EVENT@, at }),
            failure: Some(cause),
            ..self
        }
    }

    /// The span after it was ended at `at`.
    pub open spec fn ended_at(self, at: u64) -> SpanView {
        SpanView { ended: Some(at), ..self }
    }
}

/// A span. It is open from `start` until `end`, which is called once; events
/// and failures are recorded only while it is open.
pub struct Span {
    context: SpanContext,
    parent: Option<SpanContext>,
    name: String,
    started: u64,
    ended: Option<u64>,
    events: Vec<Event>,
    failure: Option<String>,
}

/// The events of a list as contracts see them, in order.
pub open spec fn event_views(events: Seq<Event>) -> Seq<EventView> {
    Seq::new(events.len(), |i: int| events[i]@)
}

/// The view of a span that was just started under `under`.
pub open spec fn started_span(
    name: Seq<char>,
    under: SpanContext,
    span_id_candidate: u64,
    at: u64,
) -> SpanView {
    SpanView {
        context: under.child(span_id_candidate),
        parent: if under.is_root() {
            None
        } else {
            Some(under)
        },
        name,
        started: at,
        ended: None,
        events: Seq::empty(),
        failure: None,
    }
}

impl View for Span {
    type V = SpanView;

    closed spec fn view(&self) -> SpanView {
        SpanView {
            context: self.context,
            parent: self.parent,
            name: self.name@,
            started: self.started,
            ended: self.ended,
            events: event_views(self.events@),
            failure: text_of(self.failure),
        }
    }
}

impl Span {
    /// Starts a span named `name` under the context `under`.
    ///
    /// The span belongs to the trace of `under` and inherits its sampling
    /// decision. Its parent is `under`, unless `under` is the root of a new
    /// trace, in which case the span is that trace's root span. Its span
    /// identifier is `span_id_candidate`, unless that is zero or the
    /// parent's (see `SpanContext::child`).
    pub fn start(name: &str, under: &SpanContext, span_id_candidate: u64, at: u64) -> (span: Span)
        ensures
            span@ == started_span(name@, *under, span_id_candidate, at),
    {
        let span = Span {
            context: under.new_child(span_id_candidate),
            parent: if under.root() {
                None
            } else {
                Some(*under)
            },
            name: name.to_owned(),
            started: at,
            ended: None,
            events: Vec::new(),
            failure: None,
        };
        assert(span@.events =~= Seq::empty());
        span
    }

    /// Records that `name` happened at `at`.
    pub fn add_event(&mut self, name: &str, at: u64)
        requires
            old(self)@.is_open(),
        ensures
            final(self)@ == old(self)@.with_event(name@, at),
    {
        self.events.push(Event { name: name.to_owned(), at });
        assert(self@.events =~= old(self)@.events.push(EventView { name: name@, at }));
    }

    /// Records a failure with the given cause: a failure event is appended
    /// and the cause is kept as the span's failure marker. The span stays
    /// open.
    pub fn record_failure(&mut self, cause: &str, at: u64)
        requires
            old(self)@.is_open(),
        ensures
            final(self)@ == old(self)@.with_failure(cause@, at),
    {
        self.events.push(Event { name: FAILURE_EVENT.to_owned(), at });
        self.failure = Some(cause.to_owned());
        assert(self@.events =~= old(self)@.events.push(EventView { name: FAILURE_EVENT@, at }));
    }

    /// Ends the span at `at`. A span is ended once: the call is not
    /// admitted on a span that has ended.
    pub fn end(&mut self, at: u64)
        requires
            old(self)@.is_open(),
        ensures
            final(self)@ == old(self)@.ended_at(at),
    {
        self.ended = Some(at);
    }

    /// Whether the span has been ended.
    pub fn is_ended(&self) -> (r: bool)
        ensures
            r == (self@.ended is Some),
    {
        self.ended.is_some()
    }

    /// The span's own context.
    pub fn context(&self) -> (r: SpanContext)
        ensures
            r == self@.context,
    {
        self.context
    }

    /// The context the span was started under; `None` for a root span.
    pub fn parent(&self) -> (r: Option<SpanContext>)
        ensures
            r == self@.parent,
    {
        self.parent
    }

    /// The name of the operation.
    pub fn name(&self) -> (r: String)
        ensures
            r@ == self@.name,
    {
        self.name.clone()
    }

    /// When the span was started, in milliseconds since the epoch.
    pub fn started(&self) -> (r: u64)
        ensures
            r == self@.started,
    {
        self.started
    }

    /// When the span was ended; `None` while it is open.
    pub fn ended(&self) -> (r: Option<u64>)
        ensures
            r == self@.ended,
    {
        self.ended
    }

    /// What happened while the span was open, oldest first.
    pub fn events(&self) -> (r: Vec<Event>)
        ensures
            event_views(r@) == self@.events,
    {
        let mut r: Vec<Event> = Vec::new();
        let mut i: usize = 0;
        while i < self.events.len()
            invariant
                i <= self.events.len(),
                r@.len() == i,
                forall|j: int| 0 <= j < i ==> (#[trigger] r@[j])@ == self.events@[j]@,
            decreases self.events.len() - i,
        {
            r.push(self.events[i].clone());
            i += 1;
        }
        assert(event_views(r@) =~= self@.events);
        r
    }

    /// The cause of the failure recorded last, if one was recorded.
    pub fn failure(&self) -> (r: Option<String>)
        ensures
            text_of(r) == self@.failure,
    {
        match &self.failure {
            Some(cause) => Some(cause.clone()),
            None => None,
        }
    }
}

} // verus!
