//! The idle shutdown counter: a process-wide count of active sessions
//! that triggers graceful shutdown after a configured period with none.
//!
//! The counter is driven by lifecycle events from an event channel.  Its
//! owner waits for the next event with a timeout while the count is zero
//! and without one otherwise; an elapsed timeout and a closed channel are
//! reported as events of their own.

use vstd::prelude::*;

verus! {

/// A session lifecycle observation, as seen by the counter's event loop.
#[derive(Clone, Copy, Debug, PartialEq, Eq, Structural)]
pub enum IdleEvent {
    /// A session began.
    SessionStarted,
    /// A session ended.
    SessionFinished,
    /// The idle period elapsed with no event; only delivered while the
    /// count is zero, since only then is the wait armed with a timeout.
    TimedOut,
    /// The event channel closed: no sender remains.
    ChannelClosed,
}

/// What the counter's owner must do after an event.
#[derive(Clone, Copy, Debug, PartialEq, Eq, Structural)]
pub enum IdleStep {
    /// Keep waiting for events.
    Continue,
    /// Trigger graceful shutdown and stop.
    Shutdown,
    /// Stop with an error: the channel is gone, which is unrecoverable.
    StopError,
}

/// How to wait for the next event.
#[derive(Clone, Copy, Debug, PartialEq, Eq, Structural)]
pub enum WaitMode {
    /// Wait at most the configured idle duration.
    WithTimeout,
    /// Wait indefinitely.
    NoTimeout,
}

/// How one event transforms the count, and what the owner does next.
pub open spec fn spec_idle_step(active: nat, ev: IdleEvent) -> (nat, IdleStep) {
    match ev {
        IdleEvent::SessionStarted => (active + 1, IdleStep::Continue),
        IdleEvent::SessionFinished => ((active - 1) as nat, IdleStep::Continue),
        IdleEvent::TimedOut => (active, IdleStep::Shutdown),
        IdleEvent::ChannelClosed => (active, IdleStep::StopError),
    }
}

/// An event sequence the loop can actually observe: a finish only while
/// sessions are active, a timeout only while none are.
pub open spec fn idle_events_ok(active: nat, events: Seq<IdleEvent>) -> bool
    decreases events.len(),
{
    if events.len() == 0 {
        true
    } else {
        match events[0] {
            IdleEvent::SessionStarted => idle_events_ok(active + 1, events.drop_first()),
            IdleEvent::SessionFinished => active > 0 && idle_events_ok(
                (active - 1) as nat,
                events.drop_first(),
            ),
            IdleEvent::TimedOut => active == 0,
            IdleEvent::ChannelClosed => true,
        }
    }
}

/// The outcome of processing an event sequence.
#[derive(Clone, Copy, Debug, PartialEq, Eq, Structural)]
pub enum IdleOutcome {
    /// The events ran out with the loop still waiting.
    StillWaiting,
    /// A timeout elapsed with no active session: shut down, exactly once
    /// — the loop stops at this event and processes nothing further.
    Shutdown,
    /// The channel closed.
    ChannelError,
}

/// The outcome of running the counter's loop over an event sequence.
pub open spec fn spec_idle_run(active: nat, events: Seq<IdleEvent>) -> IdleOutcome
    decreases events.len(),
{
    if events.len() == 0 {
        IdleOutcome::StillWaiting
    } else {
        match events[0] {
            IdleEvent::SessionStarted => spec_idle_run(active + 1, events.drop_first()),
            IdleEvent::SessionFinished => spec_idle_run((active - 1) as nat, events.drop_first()),
            IdleEvent::TimedOut => IdleOutcome::Shutdown,
            IdleEvent::ChannelClosed => IdleOutcome::ChannelError,
        }
    }
}

/// The count of active sessions.
#[derive(Clone, Copy, Debug, PartialEq, Eq, Structural)]
pub struct IdleCounter {
    /// How many sessions are active; never negative.
    pub active: u64,
}

impl IdleCounter {
    /// A fresh counter: no session is active at process start.
    pub fn new() -> (c: Self)
        ensures
            c.active == 0,
    {
        IdleCounter { active: 0 }
    }

    /// How the owner must wait for the next event: with the idle timeout
    /// exactly while no session is active.
    pub fn wait_mode(&self) -> (m: WaitMode)
        ensures
            m == (if self.active == 0 {
                WaitMode::WithTimeout
            } else {
                WaitMode::NoTimeout
            }),
    {
        if self.active == 0 {
            WaitMode::WithTimeout
        } else {
            WaitMode::NoTimeout
        }
    }

    /// Apply one lifecycle event: a start increments, a finish
    /// decrements, an elapsed timeout triggers shutdown, a closed
    /// channel stops the loop with an error.
    pub fn on_event(&mut self, ev: IdleEvent) -> (step: IdleStep)
        requires
            ev is SessionStarted ==> old(self).active < u64::MAX,
            ev is SessionFinished ==> old(self).active > 0,
            ev is TimedOut ==> old(self).active == 0,
        ensures
            (final(self).active as nat, step) == spec_idle_step(old(self).active as nat, ev),
    {
        match ev {
            IdleEvent::SessionStarted => {
                self.active = self.active + 1;
                IdleStep::Continue
            },
            IdleEvent::SessionFinished => {
                self.active = self.active - 1;
                IdleStep::Continue
            },
            IdleEvent::TimedOut => IdleStep::Shutdown,
            IdleEvent::ChannelClosed => IdleStep::StopError,
        }
    }
}

/// Run the counter's loop over a finite, observable event sequence,
/// stopping at the first shutdown or channel error.
pub fn process_idle_events(counter: &mut IdleCounter, events: &Vec<IdleEvent>) -> (r: IdleOutcome)
    requires
        idle_events_ok(old(counter).active as nat, events@),
        old(counter).active + events@.len() <= u64::MAX,
    ensures
        r == spec_idle_run(old(counter).active as nat, events@),
{
    let n = events.len();
    proof {
        assert(events@.skip(0) =~= events@);
    }
    let mut k: usize = 0;
    while k < n
        invariant
            n == events@.len(),
            k <= n,
            counter.active + (n - k) <= u64::MAX,
            idle_events_ok(counter.active as nat, events@.skip(k as int)),
            spec_idle_run(old(counter).active as nat, events@) == spec_idle_run(
                counter.active as nat,
                events@.skip(k as int),
            ),
        decreases n - k,
    {
        proof {
            assert(events@.skip(k as int)[0] == events@[k as int]);
            assert(events@.skip(k as int).drop_first() =~= events@.skip(k + 1));
        }
        let ev = events[k];
        match counter.on_event(ev) {
            IdleStep::Continue => {},
            IdleStep::Shutdown => {
                return IdleOutcome::Shutdown;
            },
            IdleStep::StopError => {
                return IdleOutcome::ChannelError;
            },
        }
        k = k + 1;
    }
    proof {
        assert(events@.skip(n as int) =~= Seq::<IdleEvent>::empty());
    }
    IdleOutcome::StillWaiting
}

/// Idle shutdown law, first half: while no session is active, an idle
/// period with no lifecycle event shuts the process down, exactly once —
/// the run ends at that event.
pub proof fn lemma_idle_timeout_shuts_down(active: nat, events: Seq<IdleEvent>)
    requires
        events.len() >= 1,
        events[0] is TimedOut,
    ensures
        spec_idle_run(active, events) == IdleOutcome::Shutdown,
{
}

/// Idle shutdown law, second half: on an observable event sequence with
/// no timeout event, the loop never shuts down — and a timeout can only
/// be observed while the count is zero, so a session start before the
/// idle period elapses postpones any shutdown until the count has
/// returned to zero and a full idle period has passed again.
pub proof fn lemma_idle_no_timeout_no_shutdown(active: nat, events: Seq<IdleEvent>)
    requires
        idle_events_ok(active, events),
        forall|k: int| 0 <= k < events.len() ==> !(#[trigger] events[k] is TimedOut),
    ensures
        spec_idle_run(active, events) != IdleOutcome::Shutdown,
    decreases events.len(),
{
    if events.len() == 0 {
    } else {
        let rest = events.drop_first();
        assert forall|k: int| 0 <= k < rest.len() implies !(#[trigger] rest[k] is TimedOut) by {
            assert(rest[k] == events[k + 1]);
        }
        match events[0] {
            IdleEvent::SessionStarted => {
                lemma_idle_no_timeout_no_shutdown(active + 1, rest);
            },
            IdleEvent::SessionFinished => {
                lemma_idle_no_timeout_no_shutdown((active - 1) as nat, rest);
            },
            IdleEvent::TimedOut => {
                assert(false);
            },
            IdleEvent::ChannelClosed => {},
        }
    }
}

} // verus!
