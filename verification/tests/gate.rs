use remote_shutdown::engine::CountdownEngine;
use remote_shutdown::gate::{Rejection, TriggerGate, TriggerOutcome};
use remote_shutdown::secret::Secret;
use remote_shutdown::session::{EngineState, Event, FireStatus};

fn gate_for(token: &str) -> TriggerGate {
    TriggerGate::new(Secret::new(token.to_string()).unwrap())
}

#[test]
fn the_right_credential_starts_the_requested_countdown() {
    let gate = gate_for("hunter2");
    let mut engine = CountdownEngine::new();
    let outcome = gate.attempt(&mut engine, "hunter2", Some(5));
    assert_eq!(outcome, TriggerOutcome::Accepted);
    assert!(outcome.is_accepted());
    assert_eq!(engine.state(), EngineState::Running);
    assert_eq!(engine.remaining(), 5);
    assert_eq!(engine.total_duration(), 5);
}

#[test]
fn a_missing_duration_means_sixty() {
    let gate = gate_for("hunter2");
    let mut engine = CountdownEngine::new();
    assert_eq!(gate.attempt(&mut engine, "hunter2", None), TriggerOutcome::Accepted);
    assert_eq!(engine.remaining(), 60);
    assert_eq!(engine.total_duration(), 60);
}

#[test]
fn a_duration_of_zero_is_admitted_and_fires_at_once() {
    let gate = gate_for("hunter2");
    let mut engine = CountdownEngine::new();
    assert_eq!(gate.attempt(&mut engine, "hunter2", Some(0)), TriggerOutcome::Accepted);
    assert_eq!(engine.tick(), vec![Event::Fired]);
}

#[test]
fn a_wrong_credential_is_rejected_and_leaves_an_idle_engine_idle() {
    let gate = gate_for("hunter2");
    let mut engine = CountdownEngine::new();
    let outcome = gate.attempt(&mut engine, "hunter3", Some(5));
    assert_eq!(outcome, TriggerOutcome::Rejected(Rejection::InvalidCredential));
    assert!(!outcome.is_accepted());
    assert_eq!(engine.state(), EngineState::Idle);
    assert_eq!(engine.remaining(), 0);
    assert_eq!(engine.session(), None);
    assert_eq!(engine.tick(), vec![]);
    assert_eq!(engine.fire_status(), FireStatus::NotOrdered);
}

#[test]
fn a_wrong_credential_leaves_a_running_session_alone() {
    let gate = gate_for("hunter2");
    let mut engine = CountdownEngine::new();
    assert!(engine.start(30));
    engine.tick();
    engine.abort();
    let outcome = gate.attempt(&mut engine, "nope", Some(1));
    assert_eq!(outcome, TriggerOutcome::Rejected(Rejection::InvalidCredential));
    assert_eq!(engine.state(), EngineState::Running);
    assert_eq!(engine.remaining(), 29);
    assert_eq!(engine.total_duration(), 30);
    assert!(engine.abort_pending());
    assert_eq!(engine.fire_status(), FireStatus::NotOrdered);
}

#[test]
fn near_misses_are_mismatches() {
    let gate = gate_for("secret");
    for wrong in ["", "secre", "secret ", " secret", "Secret", "secret\n", "secrets", "s\u{e9}cret"] {
        let mut engine = CountdownEngine::new();
        assert_eq!(
            gate.attempt(&mut engine, wrong, None),
            TriggerOutcome::Rejected(Rejection::InvalidCredential)
        );
        assert_eq!(engine.state(), EngineState::Idle);
    }
}

#[test]
fn a_second_trigger_while_running_is_rejected() {
    let gate = gate_for("hunter2");
    let mut engine = CountdownEngine::new();
    assert_eq!(gate.attempt(&mut engine, "hunter2", Some(30)), TriggerOutcome::Accepted);
    assert_eq!(
        gate.attempt(&mut engine, "hunter2", Some(10)),
        TriggerOutcome::Rejected(Rejection::AlreadyRunning)
    );
    assert_eq!(engine.remaining(), 30);
    assert_eq!(engine.total_duration(), 30);
    let mut ticks = 0;
    let mut last = Vec::new();
    while engine.state() == EngineState::Running {
        last = engine.tick();
        ticks += 1;
    }
    assert_eq!(ticks, 30);
    assert_eq!(last, vec![Event::Progress(0), Event::Fired]);
}

#[test]
fn a_trigger_after_the_end_waits_for_the_reset() {
    let gate = gate_for("hunter2");
    let mut engine = CountdownEngine::new();
    assert_eq!(gate.attempt(&mut engine, "hunter2", Some(3)), TriggerOutcome::Accepted);
    engine.abort();
    engine.tick();
    assert_eq!(engine.state(), EngineState::Aborted);
    assert_eq!(
        gate.attempt(&mut engine, "hunter2", Some(3)),
        TriggerOutcome::Rejected(Rejection::AlreadyRunning)
    );
    assert_eq!(engine.state(), EngineState::Aborted);
    assert!(engine.reset());
    assert_eq!(gate.attempt(&mut engine, "hunter2", Some(7)), TriggerOutcome::Accepted);
    assert_eq!(engine.remaining(), 7);
}

#[test]
fn the_credential_is_judged_before_the_engine() {
    let gate = gate_for("hunter2");
    let mut engine = CountdownEngine::new();
    assert!(engine.start(4));
    assert_eq!(
        gate.attempt(&mut engine, "wrong", None),
        TriggerOutcome::Rejected(Rejection::InvalidCredential)
    );
}
