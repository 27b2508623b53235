use vuhlp::shutdown::{Shutdown, ShutdownEvent, ShutdownPhase, SHUTDOWN_TIMEOUT_NANOS};

fn after(events: Vec<ShutdownEvent>) -> ShutdownPhase {
    let mut shutdown = Shutdown::new();
    for event in events {
        assert!(shutdown.accepts(&event));
        shutdown.step(event);
    }
    shutdown.phase
}

fn failed(message: &str) -> ShutdownPhase {
    ShutdownPhase::Failed { message: message.to_string() }
}

const SENT: ShutdownEvent = ShutdownEvent::Asked { sent: true };

#[test]
fn agents_get_five_seconds() {
    assert_eq!(SHUTDOWN_TIMEOUT_NANOS, 5_000_000_000);
}

#[test]
fn an_agent_that_cannot_be_asked_is_done() {
    assert_eq!(after(vec![ShutdownEvent::Asked { sent: false }]), ShutdownPhase::Done);
}

#[test]
fn waits_end_at_the_deadline() {
    let waiting = after(vec![SENT, ShutdownEvent::Elapsed { nanos: 1_500_000_000 }]);
    assert_eq!(waiting, ShutdownPhase::Waiting { remaining_nanos: 3_500_000_000 });
    let waiting = after(vec![SENT, ShutdownEvent::Elapsed { nanos: 4_999_999_999 }]);
    assert_eq!(waiting, ShutdownPhase::Waiting { remaining_nanos: 1 });
}

#[test]
fn late_shutdowns_fail() {
    for nanos in [5_000_000_000, u128::MAX] {
        assert_eq!(
            after(vec![SENT, ShutdownEvent::Elapsed { nanos }]),
            failed("timeout waiting for shutdown")
        );
    }
}

#[test]
fn other_events_are_waited_out() {
    let events = vec![
        SENT,
        ShutdownEvent::Elapsed { nanos: 0 },
        ShutdownEvent::OtherEvent,
        ShutdownEvent::Elapsed { nanos: 2_000_000_000 },
    ];
    assert_eq!(after(events), ShutdownPhase::Waiting { remaining_nanos: 3_000_000_000 });
}

#[test]
fn shutdown_complete_is_done() {
    let events = vec![SENT, ShutdownEvent::Elapsed { nanos: 0 }, ShutdownEvent::ShutdownComplete];
    assert_eq!(after(events), ShutdownPhase::Done);
}

#[test]
fn unreadable_events_fail() {
    let error = ShutdownEvent::EventError { error: "closed".to_string() };
    assert_eq!(
        after(vec![SENT, ShutdownEvent::Elapsed { nanos: 0 }, error]),
        failed("shutdown event error: closed")
    );
}

#[test]
fn silence_fails() {
    assert_eq!(
        after(vec![SENT, ShutdownEvent::Elapsed { nanos: 0 }, ShutdownEvent::TimedOut]),
        failed("timeout waiting for shutdown")
    );
}

#[test]
fn shutdown_events_are_accepted_where_they_are_awaited() {
    let asking = Shutdown::new();
    assert!(!asking.accepts(&ShutdownEvent::Elapsed { nanos: 0 }));
    assert!(!asking.accepts(&ShutdownEvent::TimedOut));
    let timing = Shutdown { phase: ShutdownPhase::Timing };
    assert!(!timing.accepts(&SENT));
    assert!(!timing.accepts(&ShutdownEvent::ShutdownComplete));
    let done = Shutdown { phase: ShutdownPhase::Done };
    assert!(!done.accepts(&SENT));
    assert!(!Shutdown { phase: failed("x") }.accepts(&ShutdownEvent::OtherEvent));
}
