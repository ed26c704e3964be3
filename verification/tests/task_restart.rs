use asset_service::task::{
    is_clean_shutdown, restart_decision, run_period, ServeAttempt, ServeOutcome, TaskDecision,
};

fn fault() -> ServeAttempt {
    ServeAttempt { outcome: ServeOutcome::Failed, cancel_requested: false }
}

fn clean_stop() -> ServeAttempt {
    ServeAttempt { outcome: ServeOutcome::Completed, cancel_requested: true }
}

#[test]
fn fault_without_cancellation_restarts() {
    assert_eq!(restart_decision(fault()), TaskDecision::Restart);
}

#[test]
fn clean_cancellation_finishes() {
    let attempt = clean_stop();
    assert_eq!(restart_decision(attempt), TaskDecision::Finish);
    assert!(is_clean_shutdown(attempt));
}

#[test]
fn fault_with_cancellation_pending_finishes() {
    let attempt = ServeAttempt { outcome: ServeOutcome::Failed, cancel_requested: true };
    assert_eq!(restart_decision(attempt), TaskDecision::Finish);
    assert!(!is_clean_shutdown(attempt));
}

#[test]
fn bind_conflict_restarts_within_the_same_period() {
    let attempts = vec![fault(), fault(), clean_stop()];
    let summary = run_period(&attempts);
    assert_eq!(summary.attempts_used, 3);
    assert!(summary.clean);
}

#[test]
fn period_stops_at_first_non_restarted_attempt() {
    let attempts = vec![clean_stop(), fault()];
    let summary = run_period(&attempts);
    assert_eq!(summary.attempts_used, 1);
    assert!(summary.clean);
}

#[test]
fn period_that_never_finishes_is_not_clean() {
    let attempts = vec![fault(), fault()];
    let summary = run_period(&attempts);
    assert_eq!(summary.attempts_used, 2);
    assert!(!summary.clean);
}
