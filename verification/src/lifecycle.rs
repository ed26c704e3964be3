//! The lifecycle state machine: `Stopped` / `Running`, and its total
//! transition table over the three lifecycle signals.
//!
//! Each transition consumes the prior state and produces the next one,
//! together with the action the runtime must carry out (spawn a fresh server
//! run, or cancel and join the active one) and a flag telling the supervisor
//! loop whether to exit afterwards.

use vstd::prelude::*;

verus! {

/// A lifecycle signal that reaches the supervisor's transition table.
///
/// `Start` is posted by the program itself when the service comes up; `Stop`
/// and `Shutdown` arrive from the external control plane. Status inquiries
/// and unrecognized signals are answered before they reach this table.
#[derive(Clone, Copy, Debug, PartialEq, Eq, Structural)]
pub enum LifecycleSignal {
    Start,
    Stop,
    Shutdown,
}

/// Handle to the single-fire cancellation side of one server run. The
/// runtime keeps the shutdown token of run `run_id` behind this handle.
#[derive(Clone, Copy, Debug, PartialEq, Eq, Structural)]
pub struct CancelHandle {
    pub run_id: u64,
}

/// Handle to the joinable task side of one server run. The runtime keeps
/// the join handle of run `run_id` behind this handle.
#[derive(Clone, Copy, Debug, PartialEq, Eq, Structural)]
pub struct TaskHandle {
    pub run_id: u64,
}

/// The pair of handles owned by one `Running` period: the cancellation
/// handle and the task handle of the same server run.
#[derive(Clone, Copy, Debug, PartialEq, Eq, Structural)]
pub struct RunPair {
    pub cancel_handle: CancelHandle,
    pub task_handle: TaskHandle,
}

impl RunPair {
    /// The two handles form a matched 1:1 pair: both belong to the same run.
    pub open spec fn wf(self) -> bool {
        self.cancel_handle.run_id == self.task_handle.run_id
    }

    /// The run both handles belong to.
    pub open spec fn run_id(self) -> u64 {
        self.cancel_handle.run_id
    }

    /// The matched pair of a fresh run.
    pub fn fresh(run_id: u64) -> (p: RunPair)
        ensures
            p == spec_fresh_pair(run_id),
    {
        RunPair { cancel_handle: CancelHandle { run_id }, task_handle: TaskHandle { run_id } }
    }
}

/// The matched pair labelled `run_id`.
pub open spec fn spec_fresh_pair(run_id: u64) -> RunPair {
    RunPair { cancel_handle: CancelHandle { run_id }, task_handle: TaskHandle { run_id } }
}

/// The lifecycle state owned by the supervisor loop: either no server run is
/// active, or exactly one is, identified by its matched handle pair.
#[derive(Debug)]
pub enum LifecycleState {
    Stopped { address: String },
    Running { address: String, run: RunPair },
}

impl LifecycleState {
    /// In `Running`, the handle pair is matched.
    pub open spec fn wf(self) -> bool {
        match self {
            LifecycleState::Stopped { .. } => true,
            LifecycleState::Running { run, .. } => run.wf(),
        }
    }

    /// The listen address this lifecycle serves; it never changes across
    /// transitions.
    pub open spec fn address(self) -> Seq<char> {
        match self {
            LifecycleState::Stopped { address } => address@,
            LifecycleState::Running { address, .. } => address@,
        }
    }
}

/// What the runtime must do to carry out one transition.
#[derive(Clone, Copy, Debug, PartialEq, Eq, Structural)]
pub enum SupervisorAction {
    /// Nothing to do.
    Idle,
    /// Create a fresh shutdown token and spawn a server task for the state's
    /// address; label both with `run_id`.
    SpawnServer { run_id: u64 },
    /// Cancel the run's shutdown token, then join its task to completion,
    /// before the next control event is dequeued.
    CancelAndJoin { run: RunPair },
}

/// The result of applying one lifecycle signal: the next state, the action
/// the runtime must carry out, and whether the supervisor loop terminates
/// after completing it.
pub struct StepOutcome {
    pub next: LifecycleState,
    pub action: SupervisorAction,
    pub terminate: bool,
}

/// The total transition table, all nine (state, signal) pairs.
///
/// `fresh_id` labels the run spawned by `Stopped` + `Start`; every other
/// pair ignores it.
pub open spec fn spec_transition(s: LifecycleState, sig: LifecycleSignal, fresh_id: u64) -> StepOutcome {
    match s {
        LifecycleState::Stopped { address } => match sig {
            LifecycleSignal::Start => StepOutcome {
                next: LifecycleState::Running { address, run: spec_fresh_pair(fresh_id) },
                action: SupervisorAction::SpawnServer { run_id: fresh_id },
                terminate: false,
            },
            LifecycleSignal::Stop => StepOutcome {
                next: LifecycleState::Stopped { address },
                action: SupervisorAction::Idle,
                terminate: false,
            },
            LifecycleSignal::Shutdown => StepOutcome {
                next: LifecycleState::Stopped { address },
                action: SupervisorAction::Idle,
                terminate: true,
            },
        },
        LifecycleState::Running { address, run } => match sig {
            LifecycleSignal::Start => StepOutcome {
                next: LifecycleState::Running { address, run },
                action: SupervisorAction::Idle,
                terminate: false,
            },
            LifecycleSignal::Stop => StepOutcome {
                next: LifecycleState::Stopped { address },
                action: SupervisorAction::CancelAndJoin { run },
                terminate: false,
            },
            LifecycleSignal::Shutdown => StepOutcome {
                next: LifecycleState::Stopped { address },
                action: SupervisorAction::CancelAndJoin { run },
                terminate: true,
            },
        },
    }
}

/// Apply one lifecycle signal to the state.
pub fn transition(s: LifecycleState, sig: LifecycleSignal, fresh_id: u64) -> (out: StepOutcome)
    ensures
        out == spec_transition(s, sig, fresh_id),
{
    match s {
        LifecycleState::Stopped { address } => match sig {
            LifecycleSignal::Start => StepOutcome {
                next: LifecycleState::Running { address, run: RunPair::fresh(fresh_id) },
                action: SupervisorAction::SpawnServer { run_id: fresh_id },
                terminate: false,
            },
            LifecycleSignal::Stop => StepOutcome {
                next: LifecycleState::Stopped { address },
                action: SupervisorAction::Idle,
                terminate: false,
            },
            LifecycleSignal::Shutdown => StepOutcome {
                next: LifecycleState::Stopped { address },
                action: SupervisorAction::Idle,
                terminate: true,
            },
        },
        LifecycleState::Running { address, run } => match sig {
            LifecycleSignal::Start => StepOutcome {
                next: LifecycleState::Running { address, run },
                action: SupervisorAction::Idle,
                terminate: false,
            },
            LifecycleSignal::Stop => StepOutcome {
                next: LifecycleState::Stopped { address },
                action: SupervisorAction::CancelAndJoin { run },
                terminate: false,
            },
            LifecycleSignal::Shutdown => StepOutcome {
                next: LifecycleState::Stopped { address },
                action: SupervisorAction::CancelAndJoin { run },
                terminate: true,
            },
        },
    }
}

/// The shape of the whole table: the loop terminates exactly on `Shutdown`;
/// the address never changes; the next state is `Running` exactly after
/// `Start`; a spawn happens exactly from `Stopped` + `Start`; a cancel-join
/// happens exactly when leaving `Running`, and it carries exactly the handle
/// pair of the run that was active.
pub proof fn lemma_transition_table(s: LifecycleState, sig: LifecycleSignal, fresh_id: u64)
    requires
        s.wf(),
    ensures
        spec_transition(s, sig, fresh_id).terminate == (sig is Shutdown),
        spec_transition(s, sig, fresh_id).next.address() == s.address(),
        spec_transition(s, sig, fresh_id).next.wf(),
        spec_transition(s, sig, fresh_id).next is Running <==> sig is Start,
        spec_transition(s, sig, fresh_id).action is SpawnServer <==> (s is Stopped && sig is Start),
        spec_transition(s, sig, fresh_id).action matches SupervisorAction::SpawnServer { run_id } ==> run_id == fresh_id,
        spec_transition(s, sig, fresh_id).action is CancelAndJoin <==> (s is Running && (sig is Stop || sig is Shutdown)),
        spec_transition(s, sig, fresh_id).action matches SupervisorAction::CancelAndJoin { run } ==> (s matches LifecycleState::Running { run: active, .. } && run == active),
{
}

} // verus!
