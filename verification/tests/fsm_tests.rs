use sharkmon::fsm::{step, LoopAction, LoopEvent, LoopState, BACKOFF_MS, POLL_INTERVAL_MS};

#[test]
fn refused_connections_back_off_and_stay_disconnected() {
    // A transport that refuses N connection attempts must cause exactly N
    // fault-path iterations, each with the fixed backoff, before polling.
    let n = 7;
    let mut state = LoopState::Connecting;
    for _ in 0..n {
        let (next, action) = step(state, LoopEvent::ConnectFailed);
        assert_eq!(action, LoopAction::ResetAndBackoff { sleep_ms: BACKOFF_MS });
        assert_eq!(next, LoopState::Connecting);
        state = next;
    }
    let now = 50_000;
    let (next, action) = step(state, LoopEvent::ConnectSucceeded { now_ms: now });
    assert_eq!(action, LoopAction::StartCycle);
    assert_eq!(next, LoopState::Polling { next_tick_ms: now + POLL_INTERVAL_MS });
}

#[test]
fn backoff_is_two_seconds() {
    assert_eq!(BACKOFF_MS, 2000);
    let (_, action) = step(LoopState::Connecting, LoopEvent::ConnectFailed);
    assert_eq!(action, LoopAction::ResetAndBackoff { sleep_ms: 2000 });
}

#[test]
fn successful_cycles_are_paced_on_an_absolute_cadence() {
    // With a mocked clock the deadlines must advance by exactly the
    // interval per cycle, however long each cycle's reads took: the read
    // latency never enters the schedule.
    let start = 10_000;
    let mut state = LoopState::Polling { next_tick_ms: start };
    for k in 0..5u64 {
        let (next, action) = step(state, LoopEvent::CycleSucceeded);
        assert_eq!(
            action,
            LoopAction::WaitUntil { deadline_ms: start + k * POLL_INTERVAL_MS }
        );
        assert_eq!(
            next,
            LoopState::Polling { next_tick_ms: start + (k + 1) * POLL_INTERVAL_MS }
        );
        state = next;
    }
}

#[test]
fn read_failure_takes_the_same_fault_path_as_connect_failure() {
    let polling = LoopState::Polling { next_tick_ms: 12_345 };
    let (next, action) = step(polling, LoopEvent::CycleFailed);
    assert_eq!(next, LoopState::Connecting);
    assert_eq!(action, LoopAction::ResetAndBackoff { sleep_ms: BACKOFF_MS });
}

#[test]
fn poll_interval_is_one_second() {
    assert_eq!(POLL_INTERVAL_MS, 1000);
}
