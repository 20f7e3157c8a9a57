//! Refresh scheduling: when the next collection round is due, and the guard
//! that keeps collection rounds from overlapping.
use vstd::prelude::*;

verus! {

/// Time between two timer-driven refreshes, in milliseconds.
pub const REFRESH_INTERVAL_MS: u64 = 2000;

/// How long the loop may wait for input, `elapsed_ms` after the last
/// refresh ended: the rest of the interval, or 0 once it is over.
pub fn poll_timeout_ms(elapsed_ms: u64) -> (r: u64)
    ensures
        r == if elapsed_ms >= REFRESH_INTERVAL_MS {
            0
        } else {
            REFRESH_INTERVAL_MS - elapsed_ms
        },
{
    if elapsed_ms >= REFRESH_INTERVAL_MS {
        0
    } else {
        REFRESH_INTERVAL_MS - elapsed_ms
    }
}

/// Whether the timer asks for a refresh, `elapsed_ms` after the last one.
pub fn refresh_due(elapsed_ms: u64) -> (r: bool)
    ensures
        r == (elapsed_ms >= REFRESH_INTERVAL_MS),
{
    elapsed_ms >= REFRESH_INTERVAL_MS
}

/// Guard around the collector: whether a round is running, and whether a
/// request came in while it ran.
#[derive(Clone, Copy, Debug, PartialEq, Eq, Structural)]
pub struct RefreshGate {
    pub in_flight: bool,
    pub pending: bool,
}

/// Something that reaches the guard.
#[derive(Clone, Copy, Debug, PartialEq, Eq, Structural)]
pub enum GateEvent {
    /// The timer or the user asks for a refresh.
    Request,
    /// The running round finished.
    Done,
}

/// The guard after a request, and whether a round starts now. A request
/// while a round runs starts nothing; it is kept as one deferred round.
pub open spec fn on_request(g: RefreshGate) -> (RefreshGate, bool) {
    if g.in_flight {
        (RefreshGate { in_flight: true, pending: true }, false)
    } else {
        (RefreshGate { in_flight: true, pending: false }, true)
    }
}

/// The guard after a round finished, and whether the deferred round starts
/// now. With no round running this changes nothing.
pub open spec fn on_done(g: RefreshGate) -> (RefreshGate, bool) {
    if !g.in_flight {
        (g, false)
    } else if g.pending {
        (RefreshGate { in_flight: true, pending: false }, true)
    } else {
        (RefreshGate { in_flight: false, pending: false }, false)
    }
}

pub open spec fn step(g: RefreshGate, e: GateEvent) -> (RefreshGate, bool) {
    match e {
        GateEvent::Request => on_request(g),
        GateEvent::Done => on_done(g),
    }
}

/// The guard after a run of events.
pub open spec fn replay(g: RefreshGate, events: Seq<GateEvent>) -> RefreshGate
    decreases events.len(),
{
    if events.len() == 0 {
        g
    } else {
        step(replay(g, events.drop_last()), events.last()).0
    }
}

/// Rounds running after a run of events from an idle guard: rounds started
/// less rounds finished.
pub open spec fn running(events: Seq<GateEvent>) -> int
    decreases events.len(),
{
    if events.len() == 0 {
        0
    } else {
        let prev = replay(RefreshGate::idle(), events.drop_last());
        let n = running(events.drop_last());
        let finished: int = if events.last() == GateEvent::Done && prev.in_flight {
            1
        } else {
            0
        };
        let started: int = if step(prev, events.last()).1 {
            1
        } else {
            0
        };
        n - finished + started
    }
}

impl RefreshGate {
    pub open spec fn idle() -> RefreshGate {
        RefreshGate { in_flight: false, pending: false }
    }

    /// A guard with no round running and none deferred.
    pub fn new() -> (r: RefreshGate)
        ensures
            r == RefreshGate::idle(),
    {
        RefreshGate { in_flight: false, pending: false }
    }

    /// A refresh is asked for. Returns whether the caller starts a round now.
    pub fn request(&mut self) -> (start: bool)
        ensures
            (*final(self), start) == on_request(*old(self)),
    {
        if self.in_flight {
            self.pending = true;
            false
        } else {
            self.in_flight = true;
            self.pending = false;
            true
        }
    }

    /// The running round finished. Returns whether the caller starts the
    /// deferred round now.
    pub fn finish(&mut self) -> (start: bool)
        ensures
            (*final(self), start) == on_done(*old(self)),
    {
        if !self.in_flight {
            false
        } else if self.pending {
            self.pending = false;
            true
        } else {
            self.in_flight = false;
            false
        }
    }
}

/// From an idle guard, whatever requests and completions arrive and however
/// fast, exactly as many rounds run as the guard says are in flight: one or
/// none, never two at once.
pub proof fn lemma_rounds_never_overlap(events: Seq<GateEvent>)
    ensures
        running(events) == if replay(RefreshGate::idle(), events).in_flight {
            1int
        } else {
            0int
        },
        0 <= running(events) <= 1,
    decreases events.len(),
{
    if events.len() > 0 {
        lemma_rounds_never_overlap(events.drop_last());
    }
}

} // verus!
