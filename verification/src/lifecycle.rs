//! The life of a network listener: start, serve, drain, flush, stop.
//!
//! The process around the listener reports what happened as an `Event`;
//! `step` answers with the next phase and with what the process is to do.
//! New work is taken only while serving. After an interrupt the listener
//! stops accepting; requests in flight run to their end, and only when the
//! serving task has joined is the tracer provider flushed. The process
//! exits when that is done.

use vstd::prelude::*;

verus! {

/// Where a listener stands.
#[derive(Clone, Copy, Debug, PartialEq, Eq, Structural)]
pub enum Phase {
    /// Not bound yet.
    Starting,
    /// Bound, and accepting work.
    Serving,
    /// No longer accepting; requests in flight are running to their end.
    Draining,
    /// The serving task has joined; the tracer provider is being flushed.
    Flushing,
    /// Done.
    Stopped,
}

/// What the process reports.
#[derive(Clone, Copy, Debug, PartialEq, Eq, Structural)]
pub enum Event {
    /// The listener is bound.
    Bound,
    /// The interrupt signal came.
    Interrupt,
    /// The process can no longer wait for the interrupt signal.
    SignalLost,
    /// The serving task has joined: nothing is in flight any more.
    Joined,
    /// The tracer provider has been flushed, or the grace period for that
    /// is over.
    Flushed,
}

/// What the process is to do.
#[derive(Clone, Copy, Debug, PartialEq, Eq, Structural)]
pub enum Action {
    /// Nothing.
    Nothing,
    /// Begin to accept work.
    Accept,
    /// Stop accepting work, and wait for the serving task to join.
    StopAccepting,
    /// Shut the tracer provider down, flushing what it has queued.
    Flush,
    /// Exit.
    Exit,
}

impl Phase {
    /// New work is taken in this phase.
    pub open spec fn accepts(self) -> bool {
        self == Phase::Serving
    }

    /// How far the listener has come.
    pub open spec fn rank(self) -> nat {
        match self {
            Phase::Starting => 0,
            Phase::Serving => 1,
            Phase::Draining => 2,
            Phase::Flushing => 3,
            Phase::Stopped => 4,
        }
    }

    /// Whether new work is taken in this phase.
    pub fn is_accepting(&self) -> (r: bool)
        ensures
            r == self.accepts(),
    {
        match self {
            Phase::Serving => true,
            _ => false,
        }
    }
}

/// The phase after `event`, and what the process is to do.
///
/// An interrupt, or the loss of the signal, ends serving. A listener that
/// never served has nothing to drain and goes on to flush. An event that
/// has no meaning in a phase changes nothing.
pub open spec fn next(phase: Phase, event: Event) -> (Phase, Action) {
    match (phase, event) {
        (Phase::Starting, Event::Bound) => (Phase::Serving, Action::Accept),
        (Phase::Starting, Event::Interrupt) => (Phase::Flushing, Action::Flush),
        (Phase::Starting, Event::SignalLost) => (Phase::Flushing, Action::Flush),
        (Phase::Serving, Event::Interrupt) => (Phase::Draining, Action::StopAccepting),
        (Phase::Serving, Event::SignalLost) => (Phase::Draining, Action::StopAccepting),
        (Phase::Serving, Event::Joined) => (Phase::Flushing, Action::Flush),
        (Phase::Draining, Event::Joined) => (Phase::Flushing, Action::Flush),
        (Phase::Flushing, Event::Flushed) => (Phase::Stopped, Action::Exit),
        _ => (phase, Action::Nothing),
    }
}

/// Takes one event.
pub fn step(phase: Phase, event: Event) -> (r: (Phase, Action))
    ensures
        r == next(phase, event),
{
    match (phase, event) {
        (Phase::Starting, Event::Bound) => (Phase::Serving, Action::Accept),
        (Phase::Starting, Event::Interrupt) => (Phase::Flushing, Action::Flush),
        (Phase::Starting, Event::SignalLost) => (Phase::Flushing, Action::Flush),
        (Phase::Serving, Event::Interrupt) => (Phase::Draining, Action::StopAccepting),
        (Phase::Serving, Event::SignalLost) => (Phase::Draining, Action::StopAccepting),
        (Phase::Serving, Event::Joined) => (Phase::Flushing, Action::Flush),
        (Phase::Draining, Event::Joined) => (Phase::Flushing, Action::Flush),
        (Phase::Flushing, Event::Flushed) => (Phase::Stopped, Action::Exit),
        _ => (phase, Action::Nothing),
    }
}

/// The phase after a run of events.
pub open spec fn phase_after(phase: Phase, events: Seq<Event>) -> Phase
    decreases events.len(),
{
    if events.len() == 0 {
        phase
    } else {
        next(phase_after(phase, events.drop_last()), events.last()).0
    }
}

/// What the process was told to do at each event of a run.
pub open spec fn actions_of(phase: Phase, events: Seq<Event>) -> Seq<Action>
    decreases events.len(),
{
    if events.len() == 0 {
        Seq::empty()
    } else {
        actions_of(phase, events.drop_last()).push(
            next(phase_after(phase, events.drop_last()), events.last()).1,
        )
    }
}

/// How often `action` occurs in `actions`.
pub open spec fn count_of(actions: Seq<Action>, action: Action) -> nat
    decreases actions.len(),
{
    if actions.len() == 0 {
        0
    } else {
        count_of(actions.drop_last(), action) + if actions.last() == action {
            1nat
        } else {
            0nat
        }
    }
}

/// A listener never goes back, and every action has its one place: work is
/// accepted on entering `Serving`, refused from `Draining` on, the tracer
/// provider is flushed on entering `Flushing`, which is never entered from
/// `Serving` or `Draining` but by the join of the serving task, and the
/// process exits on entering `Stopped`.
pub proof fn lemma_step(phase: Phase, event: Event)
    ensures
        phase.rank() <= next(phase, event).0.rank(),
        next(phase, event).1 == Action::Nothing <==> next(phase, event).0 == phase,
        next(phase, event).1 == Action::Accept <==> phase == Phase::Starting && next(
            phase,
            event,
        ).0 == Phase::Serving,
        next(phase, event).1 == Action::StopAccepting <==> phase == Phase::Serving && next(
            phase,
            event,
        ).0 == Phase::Draining,
        next(phase, event).1 == Action::Flush <==> phase.rank() < 3 && next(phase, event).0
            == Phase::Flushing,
        next(phase, event).1 == Action::Flush && phase != Phase::Starting ==> event
            == Event::Joined,
        next(phase, event).1 == Action::Exit <==> phase == Phase::Flushing && next(
            phase,
            event,
        ).0 == Phase::Stopped,
{
}

/// Over any run of events from any phase, the listener is told at most once
/// to flush and at most once to exit; it is told to exit only if it stands
/// in `Stopped` afterwards, and to flush only if it stands in `Flushing` or
/// `Stopped`.
pub proof fn lemma_run(phase: Phase, events: Seq<Event>)
    ensures
        phase.rank() <= phase_after(phase, events).rank(),
        actions_of(phase, events).len() == events.len(),
        count_of(actions_of(phase, events), Action::Flush) <= 1,
        count_of(actions_of(phase, events), Action::Exit) <= 1,
        count_of(actions_of(phase, events), Action::Flush) == 1 ==> phase.rank() < 3
            && phase_after(phase, events).rank() >= 3,
        count_of(actions_of(phase, events), Action::Exit) == 1 ==> phase.rank() < 4
            && phase_after(phase, events) == Phase::Stopped,
    decreases events.len(),
{
    if events.len() > 0 {
        let before = events.drop_last();
        lemma_run(phase, before);
        lemma_step(phase_after(phase, before), events.last());
        assert(actions_of(phase, events).drop_last() =~= actions_of(phase, before));
    }
}

/// A complete run from `Starting`: a listener that has exited was told to
/// flush exactly once before.
pub proof fn lemma_exit_after_flush(events: Seq<Event>)
    requires
        phase_after(Phase::Starting, events) == Phase::Stopped,
    ensures
        count_of(actions_of(Phase::Starting, events), Action::Flush) == 1,
        count_of(actions_of(Phase::Starting, events), Action::Exit) == 1,
{
    lemma_reached(Phase::Starting, events);
}

/// A run that ends at or behind `Flushing` from before it has flushed once;
/// one that ends in `Stopped` from before it has exited once.
proof fn lemma_reached(phase: Phase, events: Seq<Event>)
    ensures
        phase.rank() < 3 && phase_after(phase, events).rank() >= 3 ==> count_of(
            actions_of(phase, events),
            Action::Flush,
        ) == 1,
        phase.rank() < 4 && phase_after(phase, events) == Phase::Stopped ==> count_of(
            actions_of(phase, events),
            Action::Exit,
        ) == 1,
    decreases events.len(),
{
    if events.len() > 0 {
        let before = events.drop_last();
        lemma_reached(phase, before);
        lemma_run(phase, before);
        lemma_step(phase_after(phase, before), events.last());
        assert(actions_of(phase, events).drop_last() =~= actions_of(phase, before));
    }
}

} // verus!
