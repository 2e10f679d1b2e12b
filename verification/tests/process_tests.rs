use launcher::error::Error;
use launcher::process::Child;
use launcher::process::ShutdownMethod;
use launcher::process::SignalKind;
use launcher::process::Terminator;
use launcher::process::WaitEvent;
use launcher::status::HabExitStatus;

#[test]
fn poll_reports_running_then_caches_first_reap() {
    let mut child = Child::new(42);
    assert_eq!(child.id(), 42);
    assert!(child.needs_reap());
    let st = child.status(WaitEvent::StillRunning).unwrap();
    assert!(st.no_status());
    assert!(child.needs_reap());
    let st = child.status(WaitEvent::Reaped(0)).unwrap();
    assert_eq!(st, HabExitStatus { status: Some(0) });
    assert!(!child.needs_reap());
}

#[test]
fn poll_is_idempotent_after_first_reap() {
    // A mock process backend: it counts how often the reap primitive is
    // consulted, i.e. how often the handle still asks for an observation.
    let mut reaps = 0;
    let mut child = Child::new(7);
    let mut observe = |n: &mut u32| {
        *n += 1;
        WaitEvent::Reaped(15)
    };
    let ev = if child.needs_reap() { observe(&mut reaps) } else { WaitEvent::Failed };
    let first = child.status(ev).unwrap();
    let ev = if child.needs_reap() { observe(&mut reaps) } else { WaitEvent::Failed };
    let second = child.status(ev).unwrap();
    assert_eq!(first, second);
    assert_eq!(first, HabExitStatus { status: Some(15) });
    assert_eq!(reaps, 1);
}

#[test]
fn later_observations_cannot_disturb_the_cache() {
    let mut child = Child::new(7);
    child.status(WaitEvent::Reaped(9)).unwrap();
    // Whatever a later caller claims to have observed, the cached value wins.
    assert_eq!(child.status(WaitEvent::Reaped(77)).unwrap(), HabExitStatus { status: Some(9) });
    assert_eq!(child.status(WaitEvent::Failed).unwrap(), HabExitStatus { status: Some(9) });
}

#[test]
fn failed_wait_is_a_process_control_error() {
    let mut child = Child::new(3);
    assert_eq!(child.status(WaitEvent::Failed), Err(Error::ProcessControl));
    // The failure cached nothing.
    assert!(child.needs_reap());
}

#[test]
fn group_leader_is_signaled_group_wide() {
    let t = Terminator::new(5, 5);
    assert_eq!(t.target, -5);
}

#[test]
fn non_leader_is_signaled_alone() {
    let t = Terminator::new(5, 4);
    assert_eq!(t.target, 5);
}

#[test]
fn prompt_exit_is_graceful_with_one_delivery() {
    // A mock signal backend recording every delivery the engine requests.
    let mut delivered: Vec<SignalKind> = vec![];
    let mut t = Terminator::new(100, 1);
    while let Some(kind) = t.pending_signal() {
        delivered.push(kind);
        t.note_signal_sent();
        // The child exits within the first second of polling.
        if t.outcome().is_none() {
            t.note_poll(false, false);
            t.note_poll(true, false);
        }
    }
    assert_eq!(t.outcome(), Some(ShutdownMethod::GracefulTermination));
    assert_eq!(delivered, vec![SignalKind::Graceful]);
}

#[test]
fn unresponsive_child_is_killed_after_the_deadline() {
    let mut delivered: Vec<SignalKind> = vec![];
    let mut t = Terminator::new(100, 1);
    let mut polls = 0;
    while let Some(kind) = t.pending_signal() {
        delivered.push(kind);
        t.note_signal_sent();
        // The child never reacts; the deadline elapses on the final poll.
        while t.outcome().is_none() && t.pending_signal().is_none() {
            polls += 1;
            t.note_poll(false, polls >= 8);
        }
    }
    assert_eq!(t.outcome(), Some(ShutdownMethod::Killed));
    assert_eq!(delivered, vec![SignalKind::Graceful, SignalKind::Forceful]);
}

#[test]
fn vanished_target_short_circuits_to_a_terminal_outcome() {
    let mut t = Terminator::new(12, 12);
    assert_eq!(t.pending_signal(), Some(SignalKind::Graceful));
    // Delivery reports "no such process": already gone, not an error.
    t.note_target_gone();
    assert_eq!(t.outcome(), Some(ShutdownMethod::GracefulTermination));
    assert!(!t.graceful_sent);
    assert!(!t.forceful_sent);
}
