use asset_service::control::{ControlEvent, ControlResult, ControlSignal};
use asset_service::lifecycle::{LifecycleSignal, LifecycleState, SupervisorAction};
use asset_service::supervisor::Supervisor;

const ADDR: &str = "[::1]:10000";

fn started() -> Supervisor {
    let sup = Supervisor::new(String::from(ADDR));
    let (sup, action, terminate) = sup.lifecycle_step(LifecycleSignal::Start);
    assert_eq!(action, SupervisorAction::SpawnServer { run_id: 0 });
    assert!(!terminate);
    sup
}

fn assert_running(sup: &Supervisor, run_id: u64) {
    match &sup.state {
        LifecycleState::Running { address, run } => {
            assert_eq!(address, ADDR);
            assert_eq!(run.cancel_handle.run_id, run_id);
        }
        LifecycleState::Stopped { .. } => panic!("expected Running"),
    }
}

fn assert_stopped(sup: &Supervisor) {
    match &sup.state {
        LifecycleState::Stopped { address } => assert_eq!(address, ADDR),
        LifecycleState::Running { .. } => panic!("expected Stopped"),
    }
}

#[test]
fn start_then_interrogate_leaves_state_unchanged() {
    let sup = started();
    assert_running(&sup, 0);
    let (sup, outcome) = sup.control_step(ControlSignal::Interrogate);
    assert_eq!(outcome.reply, ControlResult::NoError);
    assert_eq!(outcome.action, SupervisorAction::Idle);
    assert!(!outcome.terminate);
    assert_running(&sup, 0);
}

#[test]
fn unrecognized_signal_is_not_implemented() {
    let sup = started();
    let (sup, outcome) = sup.control_step(ControlSignal::Unsupported);
    assert_eq!(outcome.reply, ControlResult::NotImplemented);
    assert_eq!(outcome.action, SupervisorAction::Idle);
    assert!(!outcome.terminate);
    assert_running(&sup, 0);
}

#[test]
fn stop_on_running_cancels_joins_then_acknowledges() {
    let sup = started();
    let event = ControlEvent::new(ControlSignal::Stop);
    let (sup, handled) = sup.handle_event(event);
    assert_eq!(handled.reply.written, Some(ControlResult::NoError));
    match handled.action {
        SupervisorAction::CancelAndJoin { run } => assert_eq!(run.cancel_handle.run_id, 0),
        other => panic!("expected CancelAndJoin, got {:?}", other),
    }
    assert!(!handled.terminate);
    assert_stopped(&sup);
}

#[test]
fn stop_is_idempotent() {
    let sup = started();
    let (sup, first) = sup.control_step(ControlSignal::Stop);
    assert_eq!(first.reply, ControlResult::NoError);
    assert!(matches!(first.action, SupervisorAction::CancelAndJoin { .. }));
    assert_stopped(&sup);
    let (sup, second) = sup.control_step(ControlSignal::Stop);
    assert_eq!(second.reply, ControlResult::NoError);
    assert_eq!(second.action, SupervisorAction::Idle);
    assert!(!second.terminate);
    assert_stopped(&sup);
}

#[test]
fn shutdown_on_running_terminates_the_loop() {
    let sup = started();
    let (sup, outcome) = sup.control_step(ControlSignal::Shutdown);
    assert_eq!(outcome.reply, ControlResult::NoError);
    assert!(matches!(outcome.action, SupervisorAction::CancelAndJoin { .. }));
    assert!(outcome.terminate);
    assert_stopped(&sup);
}

#[test]
fn events_are_processed_in_order_one_at_a_time() {
    let sup = started();
    let events = vec![
        ControlSignal::Interrogate,
        ControlSignal::Stop,
        ControlSignal::Unsupported,
    ];
    let (sup, batch) = sup.run_control_sequence(&events);
    assert_eq!(batch.processed, 3);
    assert!(!batch.terminated);
    assert_eq!(
        batch.replies,
        vec![
            ControlResult::NoError,
            ControlResult::NoError,
            ControlResult::NotImplemented,
        ]
    );
    assert_eq!(batch.actions.len(), 3);
    assert_eq!(batch.actions[0], SupervisorAction::Idle);
    assert!(matches!(batch.actions[1], SupervisorAction::CancelAndJoin { .. }));
    assert_eq!(batch.actions[2], SupervisorAction::Idle);
    assert_stopped(&sup);
}

#[test]
fn nothing_is_dequeued_after_a_terminating_transition() {
    let sup = started();
    let events = vec![
        ControlSignal::Shutdown,
        ControlSignal::Stop,
        ControlSignal::Interrogate,
    ];
    let (sup, batch) = sup.run_control_sequence(&events);
    assert_eq!(batch.processed, 1);
    assert!(batch.terminated);
    assert_eq!(batch.replies, vec![ControlResult::NoError]);
    assert_stopped(&sup);
}

#[test]
fn restart_after_stop_spawns_a_fresh_run() {
    let sup = started();
    let (sup, _) = sup.control_step(ControlSignal::Stop);
    let (sup, action, _) = sup.lifecycle_step(LifecycleSignal::Start);
    assert_eq!(action, SupervisorAction::SpawnServer { run_id: 1 });
    assert_running(&sup, 1);
}
