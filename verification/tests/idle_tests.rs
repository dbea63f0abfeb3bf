use gtany::idle::IdleCounter;
use gtany::idle::IdleEvent;
use gtany::idle::IdleOutcome;
use gtany::idle::IdleStep;
use gtany::idle::WaitMode;
use gtany::idle::process_idle_events;

#[test]
fn idle_timeout_triggers_shutdown_once() {
    // Zero active sessions, the idle period elapses: shutdown, and the
    // loop stops there — later events are never processed.
    let mut c = IdleCounter::new();
    assert_eq!(c.wait_mode(), WaitMode::WithTimeout);
    let events = vec![IdleEvent::TimedOut];
    assert_eq!(process_idle_events(&mut c, &events), IdleOutcome::Shutdown);
}

#[test]
fn session_start_disarms_the_timeout() {
    let mut c = IdleCounter::new();
    assert_eq!(c.on_event(IdleEvent::SessionStarted), IdleStep::Continue);
    // With one active session the loop waits without a timeout.
    assert_eq!(c.wait_mode(), WaitMode::NoTimeout);
    // When the count returns to zero the timeout is re-armed.
    assert_eq!(c.on_event(IdleEvent::SessionFinished), IdleStep::Continue);
    assert_eq!(c.wait_mode(), WaitMode::WithTimeout);
}

#[test]
fn full_lifecycle_then_timeout() {
    let mut c = IdleCounter::new();
    let events = vec![
        IdleEvent::SessionStarted,
        IdleEvent::SessionStarted,
        IdleEvent::SessionFinished,
        IdleEvent::SessionFinished,
        IdleEvent::TimedOut,
    ];
    assert_eq!(process_idle_events(&mut c, &events), IdleOutcome::Shutdown);
    assert_eq!(c.active, 0);
}

#[test]
fn closed_channel_is_an_error() {
    let mut c = IdleCounter::new();
    let events = vec![IdleEvent::SessionStarted, IdleEvent::ChannelClosed];
    assert_eq!(process_idle_events(&mut c, &events), IdleOutcome::ChannelError);
}

#[test]
fn active_sessions_keep_the_loop_waiting() {
    let mut c = IdleCounter::new();
    let events = vec![IdleEvent::SessionStarted];
    assert_eq!(process_idle_events(&mut c, &events), IdleOutcome::StillWaiting);
    assert_eq!(c.active, 1);
}
