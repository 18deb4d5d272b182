use std::time::Duration;

use ethryx::health::{Check, ReadyReport};
use ethryx::poll::{
    not_ready_line, readiness_transition, PollAction, PollEvent, Poller, Transition,
};

#[test]
fn readiness_transitions_log_only_on_change() {
    assert!(matches!(readiness_transition(None, false), Transition::BecameNotReady));
    assert!(matches!(readiness_transition(None, true), Transition::Silent));
    assert!(matches!(readiness_transition(Some(true), true), Transition::Silent));
    assert!(matches!(readiness_transition(Some(false), false), Transition::Silent));
    assert!(matches!(
        readiness_transition(Some(true), false),
        Transition::BecameNotReady
    ));
    assert!(matches!(readiness_transition(Some(false), true), Transition::Recovered));
}

const PAUSE: Duration = Duration::from_secs(5);

fn polled(probe: u8, ready: bool) -> PollEvent<u8> {
    PollEvent::Polled { probe, ready }
}

#[test]
fn poller_pauses_first_and_cycles_until_shutdown() {
    let (mut p, first) = Poller::start::<u8>(PAUSE);
    assert_eq!(first, PollAction::Sleep(PAUSE));
    assert_eq!(p.step(PollEvent::<u8>::Slept), (PollAction::Poll, Transition::Silent));
    assert_eq!(
        p.step(polled(7, true)),
        (PollAction::Publish(7), Transition::Silent)
    );
    assert_eq!(
        p.step(PollEvent::<u8>::Published(true)),
        (PollAction::Sleep(PAUSE), Transition::Silent)
    );
    assert_eq!(p.prev_ready, Some(true));
    assert_eq!(
        p.step(PollEvent::<u8>::Published(false)),
        (PollAction::Stop, Transition::Silent)
    );
    assert_eq!(
        p.step(PollEvent::<u8>::Shutdown),
        (PollAction::Stop, Transition::Silent)
    );
    assert_eq!(p.prev_ready, Some(true));
}

#[test]
fn polls_are_handed_on_in_order() {
    let (mut p, _) = Poller::start::<u8>(PAUSE);
    let mut handed_on = Vec::new();
    for probe in 1..4 {
        assert_eq!(p.step(PollEvent::<u8>::Slept).0, PollAction::Poll);
        if let (PollAction::Publish(probe), _) = p.step(polled(probe, true)) {
            handed_on.push(probe);
        }
        assert_eq!(p.step(PollEvent::<u8>::Published(true)).0, PollAction::Sleep(PAUSE));
    }
    assert_eq!(handed_on, vec![1, 2, 3]);
}

#[test]
fn a_sustained_state_is_logged_once() {
    let (mut p, _) = Poller::start::<u8>(PAUSE);
    let verdicts = [false, false, true, true, false, false, true];
    let lines: Vec<Transition> = verdicts.iter().map(|r| p.step(polled(0, *r)).1).collect();
    assert_eq!(
        lines,
        vec![
            Transition::BecameNotReady,
            Transition::Silent,
            Transition::Recovered,
            Transition::Silent,
            Transition::BecameNotReady,
            Transition::Silent,
            Transition::Recovered,
        ]
    );
}

#[test]
fn first_poll_is_quiet_when_ready() {
    let (mut p, _) = Poller::start::<u8>(PAUSE);
    assert_eq!(p.step(polled(0, true)).1, Transition::Silent);
    assert_eq!(p.step(polled(0, true)).1, Transition::Silent);
}

#[test]
fn not_ready_line_shows_a_dash_for_what_does_not_apply() {
    let check = |detail: &str| Check {
        ok: false,
        detail: detail.to_string(),
    };
    let line = not_ready_line(&ReadyReport {
        status: "not_ready",
        el_syncing: check("a"),
        cl_syncing: check("b"),
        el_block_fresh: None,
        cl_slot_fresh: Some(check("c")),
    });
    assert_eq!(line.el_syncing, "a");
    assert_eq!(line.cl_syncing, "b");
    assert_eq!(line.el_block, "-");
    assert_eq!(line.cl_slot, "c");
}
