//! The acquisition loop as a state machine.
//!
//! The loop itself lives outside the verified core, because every step of
//! it waits on the network or on the clock. What is verified here is every
//! decision the loop makes: which state follows which event, that a failed
//! connection is answered by a reset and a fixed two-second backoff and by
//! nothing else, and that successful cycles are paced on an absolute
//! cadence — each tick is scheduled at the previous deadline plus the
//! interval, so read latency never accumulates into drift.

use vstd::prelude::*;

verus! {

/// Pause between two successful poll cycles, in milliseconds.
pub const POLL_INTERVAL_MS: u64 = 1000;

/// Pause after a fault before the next connection attempt, in milliseconds.
pub const BACKOFF_MS: u64 = 2000;

/// Where the loop stands between two events.
#[derive(Clone, Copy, Debug, PartialEq, Eq, Structural)]
pub enum LoopState {
    /// No session; the next step is a connection attempt.
    Connecting,
    /// A session is up; the next cycle is due at the absolute deadline.
    Polling { next_tick_ms: u64 },
}

/// What the outside work reported back.
#[derive(Clone, Copy, Debug, PartialEq, Eq, Structural)]
pub enum LoopEvent {
    /// A session was established at the given instant.
    ConnectSucceeded { now_ms: u64 },
    /// The connection attempt failed.
    ConnectFailed,
    /// The three register reads of one cycle all succeeded.
    CycleSucceeded,
    /// Some register read of the cycle failed.
    CycleFailed,
}

/// What the loop must do next.
#[derive(Clone, Copy, Debug, PartialEq, Eq, Structural)]
pub enum LoopAction {
    /// Run the three register reads right away.
    StartCycle,
    /// Sleep until the absolute deadline, then run the next cycle.
    WaitUntil { deadline_ms: u64 },
    /// Reset the reading, drop the session, sleep, then reconnect.
    ResetAndBackoff { sleep_ms: u64 },
}

/// Whether the event is one the state can answer: connection outcomes
/// arrive while connecting, cycle outcomes while polling.
pub open spec fn event_fits(s: LoopState, e: LoopEvent) -> bool {
    match e {
        LoopEvent::ConnectSucceeded { .. } => s is Connecting,
        LoopEvent::ConnectFailed => s is Connecting,
        LoopEvent::CycleSucceeded => s is Polling,
        LoopEvent::CycleFailed => s is Polling,
    }
}

/// Whether advancing the deadline stays within the clock's range.
pub open spec fn step_in_range(s: LoopState, e: LoopEvent) -> bool {
    match e {
        LoopEvent::ConnectSucceeded { now_ms } => now_ms + POLL_INTERVAL_MS <= u64::MAX,
        LoopEvent::CycleSucceeded => match s {
            LoopState::Polling { next_tick_ms } => next_tick_ms + POLL_INTERVAL_MS <= u64::MAX,
            LoopState::Connecting => true,
        },
        _ => true,
    }
}

/// The transition relation of the loop, one event at a time.
pub open spec fn step_spec(s: LoopState, e: LoopEvent) -> (LoopState, LoopAction) {
    match e {
        LoopEvent::ConnectSucceeded { now_ms } => (
            LoopState::Polling { next_tick_ms: (now_ms + POLL_INTERVAL_MS) as u64 },
            LoopAction::StartCycle,
        ),
        LoopEvent::ConnectFailed => (
            LoopState::Connecting,
            LoopAction::ResetAndBackoff { sleep_ms: BACKOFF_MS },
        ),
        LoopEvent::CycleSucceeded => match s {
            LoopState::Polling { next_tick_ms } => (
                LoopState::Polling { next_tick_ms: (next_tick_ms + POLL_INTERVAL_MS) as u64 },
                LoopAction::WaitUntil { deadline_ms: next_tick_ms },
            ),
            LoopState::Connecting => (s, LoopAction::StartCycle),
        },
        LoopEvent::CycleFailed => (
            LoopState::Connecting,
            LoopAction::ResetAndBackoff { sleep_ms: BACKOFF_MS },
        ),
    }
}

/// Advance the loop by one event.
///
/// Connect failures and read failures both land in the same fault path: a
/// reset-and-backoff of fixed length, back to `Connecting`, with no retry
/// limit. A fresh session starts its cycle at once and sets the first
/// deadline one interval after the moment it connected; each successful
/// cycle waits out the standing deadline and moves it forward by exactly
/// one interval.
pub fn step(s: LoopState, e: LoopEvent) -> (r: (LoopState, LoopAction))
    requires
        event_fits(s, e),
        step_in_range(s, e),
    ensures
        r == step_spec(s, e),
        e is ConnectFailed || e is CycleFailed ==> r.0 is Connecting && r.1 == (
        LoopAction::ResetAndBackoff { sleep_ms: BACKOFF_MS }),
        e is ConnectSucceeded ==> r.0 is Polling && r.1 == LoopAction::StartCycle,
        e is CycleSucceeded ==> r.0 is Polling && r.1 == (LoopAction::WaitUntil {
            deadline_ms: s->next_tick_ms,
        }) && r.0->next_tick_ms == s->next_tick_ms + POLL_INTERVAL_MS,
{
    match e {
        LoopEvent::ConnectSucceeded { now_ms } => (
            LoopState::Polling { next_tick_ms: now_ms + POLL_INTERVAL_MS },
            LoopAction::StartCycle,
        ),
        LoopEvent::ConnectFailed => (
            LoopState::Connecting,
            LoopAction::ResetAndBackoff { sleep_ms: BACKOFF_MS },
        ),
        LoopEvent::CycleSucceeded => match s {
            LoopState::Polling { next_tick_ms } => (
                LoopState::Polling { next_tick_ms: next_tick_ms + POLL_INTERVAL_MS },
                LoopAction::WaitUntil { deadline_ms: next_tick_ms },
            ),
            LoopState::Connecting => (s, LoopAction::StartCycle),
        },
        LoopEvent::CycleFailed => (
            LoopState::Connecting,
            LoopAction::ResetAndBackoff { sleep_ms: BACKOFF_MS },
        ),
    }
}

/// The state after a whole run of events.
pub open spec fn run_spec(s: LoopState, events: Seq<LoopEvent>) -> LoopState
    decreases events.len(),
{
    if events.len() == 0 {
        s
    } else {
        run_spec(step_spec(s, events[0]).0, events.drop_first())
    }
}

/// The actions a whole run of events demands, in order.
pub open spec fn actions_spec(s: LoopState, events: Seq<LoopEvent>) -> Seq<LoopAction>
    decreases events.len(),
{
    if events.len() == 0 {
        Seq::empty()
    } else {
        seq![step_spec(s, events[0]).1] + actions_spec(step_spec(s, events[0]).0, events.drop_first())
    }
}

/// The reconnect law: a transport that refuses every connection attempt
/// in a run keeps the loop in `Connecting`, and every single attempt is
/// answered by exactly one reset-and-backoff of the fixed length — no
/// retry limit, no growth in the delay.
pub proof fn lemma_reconnect_loop(events: Seq<LoopEvent>)
    requires
        forall|i: int| 0 <= i < events.len() ==> events[i] is ConnectFailed,
    ensures
        run_spec(LoopState::Connecting, events) is Connecting,
        actions_spec(LoopState::Connecting, events) == Seq::new(
            events.len(),
            |i: int| LoopAction::ResetAndBackoff { sleep_ms: BACKOFF_MS },
        ),
    decreases events.len(),
{
    let want = Seq::new(
        events.len(),
        |i: int| LoopAction::ResetAndBackoff { sleep_ms: BACKOFF_MS },
    );
    if events.len() == 0 {
        assert(actions_spec(LoopState::Connecting, events) =~= want);
    } else {
        assert(events[0] is ConnectFailed);
        lemma_reconnect_loop(events.drop_first());
        assert(actions_spec(LoopState::Connecting, events) =~= want);
    }
}

/// After any number of refused attempts, the first successful connection
/// enters `Polling` with its first deadline one interval past the moment
/// it connected, and starts a cycle at once.
pub proof fn lemma_reconnect_then_polling(failures: Seq<LoopEvent>, now_ms: u64)
    requires
        forall|i: int| 0 <= i < failures.len() ==> failures[i] is ConnectFailed,
        now_ms + POLL_INTERVAL_MS <= u64::MAX,
    ensures
        run_spec(
            LoopState::Connecting,
            failures.push(LoopEvent::ConnectSucceeded { now_ms }),
        ) == (LoopState::Polling { next_tick_ms: (now_ms + POLL_INTERVAL_MS) as u64 }),
    decreases failures.len(),
{
    let events = failures.push(LoopEvent::ConnectSucceeded { now_ms });
    if failures.len() == 0 {
        assert(events[0] == (LoopEvent::ConnectSucceeded { now_ms }));
        assert(events.drop_first().len() == 0);
        assert(run_spec(step_spec(LoopState::Connecting, events[0]).0, events.drop_first())
            == step_spec(LoopState::Connecting, events[0]).0);
    } else {
        assert(events[0] == failures[0]);
        assert(events.drop_first() =~= failures.drop_first().push(
            LoopEvent::ConnectSucceeded { now_ms },
        ));
        lemma_reconnect_then_polling(failures.drop_first(), now_ms);
        assert(step_spec(LoopState::Connecting, events[0]).0 is Connecting);
    }
}

/// The pacing law: over a run of successful cycles the scheduled
/// deadlines form an exact arithmetic progression — the k-th cycle waits
/// until `d0 + k * interval`, wherever in the period the reads themselves
/// finished, and the standing deadline ends one interval per cycle later.
pub proof fn lemma_fixed_rate_pacing(d0: u64, events: Seq<LoopEvent>)
    requires
        forall|i: int| 0 <= i < events.len() ==> events[i] is CycleSucceeded,
        d0 + events.len() * POLL_INTERVAL_MS <= u64::MAX,
    ensures
        run_spec(LoopState::Polling { next_tick_ms: d0 }, events) == (LoopState::Polling {
            next_tick_ms: (d0 + events.len() * POLL_INTERVAL_MS) as u64,
        }),
        actions_spec(LoopState::Polling { next_tick_ms: d0 }, events) == Seq::new(
            events.len(),
            |k: int| LoopAction::WaitUntil { deadline_ms: (d0 + k * POLL_INTERVAL_MS) as u64 },
        ),
    decreases events.len(),
{
    let s0 = LoopState::Polling { next_tick_ms: d0 };
    let want = Seq::new(
        events.len(),
        |k: int| LoopAction::WaitUntil { deadline_ms: (d0 + k * POLL_INTERVAL_MS) as u64 },
    );
    if events.len() == 0 {
        assert(actions_spec(s0, events) =~= want);
    } else {
        assert(events[0] is CycleSucceeded);
        let d1 = (d0 + POLL_INTERVAL_MS) as u64;
        assert(events.len() * POLL_INTERVAL_MS == (events.len() - 1) * POLL_INTERVAL_MS
            + POLL_INTERVAL_MS) by (nonlinear_arith);
        lemma_fixed_rate_pacing(d1, events.drop_first());
        let tail_want = Seq::new(
            events.drop_first().len(),
            |k: int| LoopAction::WaitUntil { deadline_ms: (d1 + k * POLL_INTERVAL_MS) as u64 },
        );
        assert forall|k: int| 0 <= k < events.len() implies actions_spec(s0, events)[k]
            == want[k] by {
            if k > 0 {
                assert(actions_spec(s0, events)[k] == tail_want[k - 1]);
                assert(d1 + (k - 1) * POLL_INTERVAL_MS == d0 + k * POLL_INTERVAL_MS)
                    by (nonlinear_arith)
                    requires
                        d1 == d0 + POLL_INTERVAL_MS,
                ;
            }
        }
        assert(actions_spec(s0, events) =~= want);
    }
}

} // verus!
