//! The managed server task's restart policy.
//!
//! The task runs a loop around one call of the serving routine per attempt.
//! The routine returns success only on a clean, cancellation-triggered
//! stop, and failure otherwise (a bind conflict, a transport fault). A
//! failure while no cancellation is pending is absorbed locally: the task
//! rebinds to the same address, with the same cancellation observer, and
//! serves again — the supervisor is not involved and the `Running` period
//! continues. Any other ending completes the task.

use vstd::prelude::*;

verus! {

/// How one call of the serving routine ended.
#[derive(Clone, Copy, Debug, PartialEq, Eq, Structural)]
pub enum ServeOutcome {
    /// The routine returned successfully.
    Completed,
    /// The routine returned a failure, such as a bind conflict or a
    /// transport fault.
    Failed,
}

/// What the task does after one serve call.
#[derive(Clone, Copy, Debug, PartialEq, Eq, Structural)]
pub enum TaskDecision {
    /// Rebind to the same address, reuse the same cancellation observer,
    /// and serve again immediately.
    Restart,
    /// Stop looping; the task completes.
    Finish,
}

/// One observed serve attempt: how the call ended, and whether cancellation
/// had been requested by the time it ended.
#[derive(Clone, Copy, Debug, PartialEq, Eq, Structural)]
pub struct ServeAttempt {
    pub outcome: ServeOutcome,
    pub cancel_requested: bool,
}

/// The restart rule: a failure while no cancellation is pending is
/// restarted; every other ending finishes the task.
pub open spec fn spec_restart_decision(attempt: ServeAttempt) -> TaskDecision {
    if attempt.outcome is Failed && !attempt.cancel_requested {
        TaskDecision::Restart
    } else {
        TaskDecision::Finish
    }
}

/// Whether an attempt is the cooperative shutdown succeeding: the routine
/// returned successfully and cancellation had been requested.
pub open spec fn spec_clean_shutdown(attempt: ServeAttempt) -> bool {
    attempt.outcome is Completed && attempt.cancel_requested
}

/// Decide what the task does after one serve call.
pub fn restart_decision(attempt: ServeAttempt) -> (d: TaskDecision)
    ensures
        d == spec_restart_decision(attempt),
        d is Restart <==> (attempt.outcome is Failed && !attempt.cancel_requested),
{
    if matches!(attempt.outcome, ServeOutcome::Failed) && !attempt.cancel_requested {
        TaskDecision::Restart
    } else {
        TaskDecision::Finish
    }
}

/// Whether one attempt was the cooperative shutdown succeeding.
pub fn is_clean_shutdown(attempt: ServeAttempt) -> (b: bool)
    ensures
        b == spec_clean_shutdown(attempt),
{
    matches!(attempt.outcome, ServeOutcome::Completed) && attempt.cancel_requested
}

/// How many serve calls one running period makes, given how each attempt
/// would end: every attempt up to and including the first one that is not
/// restarted; all of them if every attempt is restarted.
pub open spec fn spec_attempts_used(attempts: Seq<ServeAttempt>) -> int
    decreases attempts.len(),
{
    if attempts.len() == 0 {
        0
    } else if spec_restart_decision(attempts[0]) is Restart {
        1 + spec_attempts_used(attempts.skip(1))
    } else {
        1
    }
}

/// The attempt count is between zero and the number of recorded attempts.
proof fn lemma_attempts_used_bounds(attempts: Seq<ServeAttempt>)
    ensures
        0 <= spec_attempts_used(attempts) <= attempts.len(),
    decreases attempts.len(),
{
    if attempts.len() > 0 && spec_restart_decision(attempts[0]) is Restart {
        lemma_attempts_used_bounds(attempts.skip(1));
    }
}

/// When the first `i` attempts are all restarted, the period uses them and
/// then continues into the rest.
proof fn lemma_attempts_used_prefix(attempts: Seq<ServeAttempt>, i: int)
    requires
        0 <= i <= attempts.len(),
        forall|k: int| 0 <= k < i ==> spec_restart_decision(#[trigger] attempts[k]) is Restart,
    ensures
        spec_attempts_used(attempts) == i + spec_attempts_used(attempts.skip(i)),
    decreases i,
{
    if i > 0 {
        let tail = attempts.skip(1);
        assert(spec_restart_decision(attempts[0]) is Restart);
        assert forall|k: int|
            0 <= k < i - 1 implies spec_restart_decision(#[trigger] tail[k]) is Restart by {
            assert(tail[k] == attempts[k + 1]);
        };
        lemma_attempts_used_prefix(tail, i - 1);
        assert(tail.skip(i - 1) =~= attempts.skip(i));
    } else {
        assert(attempts.skip(0) =~= attempts);
    }
}

/// Summary of one running period of the managed server task.
pub struct PeriodSummary {
    /// How many serve calls the period made.
    pub attempts_used: usize,
    /// Whether the period ended in a clean, cancellation-triggered stop.
    pub clean: bool,
}

/// Replay one running period over the recorded attempts: restart after
/// every failure without a pending cancellation, stop at the first attempt
/// that is not restarted.
pub fn run_period(attempts: &Vec<ServeAttempt>) -> (r: PeriodSummary)
    ensures
        r.attempts_used == spec_attempts_used(attempts@),
        r.attempts_used <= attempts@.len(),
        r.clean == (r.attempts_used > 0 && spec_clean_shutdown(
            attempts@[r.attempts_used as int - 1],
        )),
{
    let mut i: usize = 0;
    let mut clean: bool = false;
    let mut done: bool = false;
    while i < attempts.len() && !done
        invariant
            i <= attempts@.len(),
            !done ==> forall|k: int|
                0 <= k < i ==> spec_restart_decision(#[trigger] attempts@[k]) is Restart,
            !done ==> !clean,
            done ==> i > 0 && spec_attempts_used(attempts@) == i,
            done ==> clean == spec_clean_shutdown(attempts@[i as int - 1]),
        decreases attempts@.len() - i,
    {
        let attempt = attempts[i];
        let decision = restart_decision(attempt);
        i = i + 1;
        if matches!(decision, TaskDecision::Finish) {
            done = true;
            clean = is_clean_shutdown(attempt);
            proof {
                lemma_attempts_used_prefix(attempts@, i as int - 1);
                assert(attempts@.skip(i as int - 1)[0] == attempts@[i as int - 1]);
                assert(spec_attempts_used(attempts@.skip(i as int - 1)) == 1);
            }
        }
    }
    proof {
        if !done {
            lemma_attempts_used_prefix(attempts@, i as int);
            assert(attempts@.skip(i as int).len() == 0);
        }
    }
    PeriodSummary { attempts_used: i, clean }
}

/// Auto-restart: when the first serve call of a period fails while no
/// cancellation is pending, the decision is `Restart` and the period makes
/// at least one more serve call. No control event or lifecycle transition
/// is produced by a restart, so the supervisor's `Running` state persists
/// untouched across it.
pub proof fn lemma_auto_restart(attempts: Seq<ServeAttempt>)
    requires
        attempts.len() >= 2,
        attempts[0].outcome is Failed,
        !attempts[0].cancel_requested,
    ensures
        spec_restart_decision(attempts[0]) is Restart,
        spec_attempts_used(attempts) >= 2,
{
    let tail = attempts.skip(1);
    lemma_attempts_used_bounds(tail.skip(1));
    assert(tail.len() >= 1);
    assert(spec_attempts_used(tail) >= 1);
}

} // verus!
