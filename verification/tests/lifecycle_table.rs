use asset_service::lifecycle::{
    transition, CancelHandle, LifecycleSignal, LifecycleState, RunPair, SupervisorAction,
    TaskHandle,
};

fn stopped(addr: &str) -> LifecycleState {
    LifecycleState::Stopped { address: String::from(addr) }
}

fn running(addr: &str, run_id: u64) -> LifecycleState {
    LifecycleState::Running {
        address: String::from(addr),
        run: RunPair {
            cancel_handle: CancelHandle { run_id },
            task_handle: TaskHandle { run_id },
        },
    }
}

fn assert_stopped(state: &LifecycleState, addr: &str) {
    match state {
        LifecycleState::Stopped { address } => assert_eq!(address, addr),
        LifecycleState::Running { .. } => panic!("expected Stopped"),
    }
}

fn assert_running(state: &LifecycleState, addr: &str, run_id: u64) {
    match state {
        LifecycleState::Running { address, run } => {
            assert_eq!(address, addr);
            assert_eq!(run.cancel_handle.run_id, run_id);
            assert_eq!(run.task_handle.run_id, run_id);
        }
        LifecycleState::Stopped { .. } => panic!("expected Running"),
    }
}

#[test]
fn stopped_start_spawns_and_runs() {
    let out = transition(stopped("[::1]:10000"), LifecycleSignal::Start, 5);
    assert_running(&out.next, "[::1]:10000", 5);
    assert_eq!(out.action, SupervisorAction::SpawnServer { run_id: 5 });
    assert!(!out.terminate);
}

#[test]
fn stopped_stop_is_noop() {
    let out = transition(stopped("a"), LifecycleSignal::Stop, 0);
    assert_stopped(&out.next, "a");
    assert_eq!(out.action, SupervisorAction::Idle);
    assert!(!out.terminate);
}

#[test]
fn stopped_shutdown_terminates_without_action() {
    let out = transition(stopped("a"), LifecycleSignal::Shutdown, 0);
    assert_stopped(&out.next, "a");
    assert_eq!(out.action, SupervisorAction::Idle);
    assert!(out.terminate);
}

#[test]
fn running_start_is_noop() {
    let out = transition(running("a", 3), LifecycleSignal::Start, 9);
    assert_running(&out.next, "a", 3);
    assert_eq!(out.action, SupervisorAction::Idle);
    assert!(!out.terminate);
}

#[test]
fn running_stop_cancels_and_joins() {
    let out = transition(running("a", 3), LifecycleSignal::Stop, 9);
    assert_stopped(&out.next, "a");
    match out.action {
        SupervisorAction::CancelAndJoin { run } => {
            assert_eq!(run.cancel_handle.run_id, 3);
            assert_eq!(run.task_handle.run_id, 3);
        }
        other => panic!("expected CancelAndJoin, got {:?}", other),
    }
    assert!(!out.terminate);
}

#[test]
fn running_shutdown_cancels_joins_and_terminates() {
    let out = transition(running("a", 3), LifecycleSignal::Shutdown, 9);
    assert_stopped(&out.next, "a");
    match out.action {
        SupervisorAction::CancelAndJoin { run } => assert_eq!(run.cancel_handle.run_id, 3),
        other => panic!("expected CancelAndJoin, got {:?}", other),
    }
    assert!(out.terminate);
}

#[test]
fn fresh_pair_is_matched() {
    let pair = RunPair::fresh(11);
    assert_eq!(pair.cancel_handle.run_id, 11);
    assert_eq!(pair.task_handle.run_id, 11);
}
