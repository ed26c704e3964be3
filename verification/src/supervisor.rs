//! The lifecycle supervisor: it owns the lifecycle state, applies control
//! events to it strictly in arrival order, one event to completion before
//! the next, and writes exactly one reply per event.
//!
//! Status inquiries (`Interrogate`) and unrecognized signals are answered
//! immediately and never touch the state; `Stop` and `Shutdown` go through
//! the transition table.

use vstd::prelude::*;

use crate::control::{ControlEvent, ControlResult, ControlSignal, ReplySlot};
use crate::lifecycle::{
    spec_transition, transition, LifecycleSignal, LifecycleState, SupervisorAction,
};

verus! {

/// The supervisor: the current lifecycle state plus the label it will give
/// to the next server run it spawns.
pub struct Supervisor {
    pub state: LifecycleState,
    pub next_run_id: u64,
}

/// What the supervisor decided for one control event: the reply owed to the
/// caller, the action the runtime must carry out before the next event is
/// dequeued, and whether the supervisor loop exits afterwards.
pub struct ControlOutcome {
    pub reply: ControlResult,
    pub action: SupervisorAction,
    pub terminate: bool,
}

/// A handled control event: its reply slot, now written exactly once,
/// together with the action and the terminate flag of the transition.
pub struct HandledEvent {
    pub reply: ReplySlot,
    pub action: SupervisorAction,
    pub terminate: bool,
}

/// One lifecycle step at the specification level. A spawn consumes the
/// supervisor's next run label.
pub open spec fn spec_lifecycle_step(sup: Supervisor, sig: LifecycleSignal) -> (Supervisor, SupervisorAction, bool) {
    let out = spec_transition(sup.state, sig, sup.next_run_id);
    let bumped = if out.action is SpawnServer {
        (sup.next_run_id + 1) as u64
    } else {
        sup.next_run_id
    };
    (Supervisor { state: out.next, next_run_id: bumped }, out.action, out.terminate)
}

/// One control event at the specification level. `Interrogate` and
/// `Unsupported` are answered without touching the state; `Stop` and
/// `Shutdown` are applied through the transition table and acknowledged
/// with `NoError` once the transition has completed.
pub open spec fn spec_control_step(sup: Supervisor, sig: ControlSignal) -> (Supervisor, ControlOutcome) {
    match sig {
        ControlSignal::Interrogate => (
            sup,
            ControlOutcome {
                reply: ControlResult::NoError,
                action: SupervisorAction::Idle,
                terminate: false,
            },
        ),
        ControlSignal::Unsupported => (
            sup,
            ControlOutcome {
                reply: ControlResult::NotImplemented,
                action: SupervisorAction::Idle,
                terminate: false,
            },
        ),
        ControlSignal::Stop => (
            spec_lifecycle_step(sup, LifecycleSignal::Stop).0,
            ControlOutcome {
                reply: ControlResult::NoError,
                action: spec_lifecycle_step(sup, LifecycleSignal::Stop).1,
                terminate: spec_lifecycle_step(sup, LifecycleSignal::Stop).2,
            },
        ),
        ControlSignal::Shutdown => (
            spec_lifecycle_step(sup, LifecycleSignal::Shutdown).0,
            ControlOutcome {
                reply: ControlResult::NoError,
                action: spec_lifecycle_step(sup, LifecycleSignal::Shutdown).1,
                terminate: spec_lifecycle_step(sup, LifecycleSignal::Shutdown).2,
            },
        ),
    }
}

impl Supervisor {
    /// The lifecycle state is well-formed.
    pub open spec fn wf(self) -> bool {
        self.state.wf()
    }

    /// A supervisor for `address`, stopped, with no run spawned yet.
    pub fn new(address: String) -> (sup: Supervisor)
        ensures
            sup.wf(),
            sup.state == (LifecycleState::Stopped { address }),
            sup.next_run_id == 0,
    {
        Supervisor { state: LifecycleState::Stopped { address }, next_run_id: 0 }
    }

    /// Apply one lifecycle signal: the transition table, plus consuming a
    /// fresh run label on a spawn.
    ///
    /// The bound on `next_run_id` is a machine limit: a spawn needs an
    /// unused label.
    pub fn lifecycle_step(self, sig: LifecycleSignal) -> (r: (Supervisor, SupervisorAction, bool))
        requires
            self.wf(),
            self.state is Stopped && sig is Start ==> self.next_run_id < u64::MAX,
        ensures
            r == spec_lifecycle_step(self, sig),
            r.0.wf(),
            r.0.next_run_id >= self.next_run_id,
            r.0.state.address() == self.state.address(),
    {
        proof {
            crate::lifecycle::lemma_transition_table(self.state, sig, self.next_run_id);
        }
        let Supervisor { state, next_run_id } = self;
        let out = transition(state, sig, next_run_id);
        let bumped: u64 = match out.action {
            SupervisorAction::SpawnServer { .. } => next_run_id + 1,
            _ => next_run_id,
        };
        (Supervisor { state: out.next, next_run_id: bumped }, out.action, out.terminate)
    }

    /// Apply one control signal: answer `Interrogate` / unrecognized
    /// signals immediately without touching the state, put `Stop` and
    /// `Shutdown` through the transition table, and acknowledge them with
    /// `NoError` once the transition has completed.
    pub fn control_step(self, sig: ControlSignal) -> (r: (Supervisor, ControlOutcome))
        requires
            self.wf(),
        ensures
            r == spec_control_step(self, sig),
            r.0.wf(),
            r.0.next_run_id == self.next_run_id,
            r.0.state.address() == self.state.address(),
            sig is Interrogate || sig is Unsupported ==> r.0 == self,
            sig is Interrogate ==> r.1.reply == ControlResult::NoError,
            sig is Unsupported ==> r.1.reply == ControlResult::NotImplemented,
            sig is Stop || sig is Shutdown ==> r.1.reply == ControlResult::NoError,
            r.1.terminate == (sig is Shutdown),
    {
        proof {
            crate::lifecycle::lemma_transition_table(self.state, LifecycleSignal::Stop, self.next_run_id);
            crate::lifecycle::lemma_transition_table(self.state, LifecycleSignal::Shutdown, self.next_run_id);
        }
        match sig {
            ControlSignal::Interrogate => (
                self,
                ControlOutcome {
                    reply: ControlResult::NoError,
                    action: SupervisorAction::Idle,
                    terminate: false,
                },
            ),
            ControlSignal::Unsupported => (
                self,
                ControlOutcome {
                    reply: ControlResult::NotImplemented,
                    action: SupervisorAction::Idle,
                    terminate: false,
                },
            ),
            ControlSignal::Stop => {
                let stepped = self.lifecycle_step(LifecycleSignal::Stop);
                (
                    stepped.0,
                    ControlOutcome {
                        reply: ControlResult::NoError,
                        action: stepped.1,
                        terminate: stepped.2,
                    },
                )
            },
            ControlSignal::Shutdown => {
                let stepped = self.lifecycle_step(LifecycleSignal::Shutdown);
                (
                    stepped.0,
                    ControlOutcome {
                        reply: ControlResult::NoError,
                        action: stepped.1,
                        terminate: stepped.2,
                    },
                )
            },
        }
    }

    /// Consume one control event and write its reply slot exactly once.
    pub fn handle_event(self, event: ControlEvent) -> (r: (Supervisor, HandledEvent))
        requires
            self.wf(),
            event.reply.written is None,
        ensures
            r.0 == spec_control_step(self, event.signal).0,
            r.0.wf(),
            r.1.reply.written == Option::Some(spec_control_step(self, event.signal).1.reply),
            r.1.action == spec_control_step(self, event.signal).1.action,
            r.1.terminate == spec_control_step(self, event.signal).1.terminate,
    {
        let ControlEvent { signal, reply } = event;
        let stepped = self.control_step(signal);
        let outcome = stepped.1;
        let written = reply.write(outcome.reply);
        (
            stepped.0,
            HandledEvent { reply: written, action: outcome.action, terminate: outcome.terminate },
        )
    }
}

/// The outcome of a `Stop` that finds nothing to stop: state untouched,
/// nothing to do, loop keeps running, caller acknowledged with `NoError`.
pub open spec fn spec_stop_noop_outcome() -> ControlOutcome {
    ControlOutcome {
        reply: ControlResult::NoError,
        action: SupervisorAction::Idle,
        terminate: false,
    }
}

/// Idempotence of `Stop`: on a stopped supervisor it is a no-op replying
/// `NoError`; after a first `Stop` on a running supervisor has completed, a
/// repeated `Stop` is that same no-op.
pub proof fn lemma_stop_idempotent(sup: Supervisor)
    requires
        sup.wf(),
    ensures
        sup.state is Stopped ==> spec_control_step(sup, ControlSignal::Stop).0 == sup,
        sup.state is Stopped ==> spec_control_step(sup, ControlSignal::Stop).1 == spec_stop_noop_outcome(),
        sup.state is Running ==> spec_control_step(sup, ControlSignal::Stop).0.state is Stopped,
        spec_control_step(spec_control_step(sup, ControlSignal::Stop).0, ControlSignal::Stop).0
            == spec_control_step(sup, ControlSignal::Stop).0,
        spec_control_step(spec_control_step(sup, ControlSignal::Stop).0, ControlSignal::Stop).1
            == spec_stop_noop_outcome(),
{
}

/// The supervisor after processing `events` in order, one to completion
/// before the next.
pub open spec fn spec_sup_after(sup: Supervisor, events: Seq<ControlSignal>) -> Supervisor
    decreases events.len(),
{
    if events.len() == 0 {
        sup
    } else {
        spec_sup_after(spec_control_step(sup, events[0]).0, events.skip(1))
    }
}

/// The supervisor just before event `n` of `events` is dequeued.
pub open spec fn spec_sup_at(sup: Supervisor, events: Seq<ControlSignal>, n: int) -> Supervisor {
    spec_sup_after(sup, events.take(n))
}

/// What the supervisor decides for event `n` of `events`.
pub open spec fn spec_outcome_at(sup: Supervisor, events: Seq<ControlSignal>, n: int) -> ControlOutcome {
    spec_control_step(spec_sup_at(sup, events, n), events[n]).1
}

/// Processing one more event is one more `spec_control_step`.
pub proof fn lemma_sup_after_snoc(sup: Supervisor, events: Seq<ControlSignal>, i: int)
    requires
        0 <= i < events.len(),
    ensures
        spec_sup_at(sup, events, i + 1) == spec_control_step(spec_sup_at(sup, events, i), events[i]).0,
    decreases i,
{
    if i == 0 {
        let first = events.take(1);
        assert(events.take(0) =~= Seq::<ControlSignal>::empty());
        assert(spec_sup_at(sup, events, 0) == sup);
        assert(first.len() == 1);
        assert(first[0] == events[0]);
        assert(first.skip(1) =~= Seq::<ControlSignal>::empty());
        assert(spec_sup_after(sup, first) == spec_sup_after(
            spec_control_step(sup, events[0]).0,
            first.skip(1),
        ));
        assert(spec_sup_after(sup, first) == spec_control_step(sup, events[0]).0);
    } else {
        let sup1 = spec_control_step(sup, events[0]).0;
        let tail = events.skip(1);
        assert(events.take(i + 1).len() == i + 1);
        assert(events.take(i + 1)[0] == events[0]);
        assert(events.take(i + 1).skip(1) =~= tail.take(i));
        assert(spec_sup_at(sup, events, i + 1) == spec_sup_after(sup1, tail.take(i)));
        assert(events.take(i)[0] == events[0]);
        assert(events.take(i).skip(1) =~= tail.take(i - 1));
        assert(spec_sup_at(sup, events, i) == spec_sup_after(sup1, tail.take(i - 1)));
        lemma_sup_after_snoc(sup1, tail, i - 1);
        assert(spec_sup_after(sup1, tail.take(i)) == spec_control_step(
            spec_sup_after(sup1, tail.take(i - 1)),
            tail[i - 1],
        ).0);
        assert(tail[i - 1] == events[i]);
    }
}

/// One point in the serialized processing of a control-event sequence.
pub enum EventRecord {
    /// The transition for event `index` was applied: the supervisor moved
    /// from `pre` to `post`.
    Applied { index: int, pre: Supervisor, post: Supervisor },
    /// The reply for event `index` was written into its reply slot.
    Replied { index: int, reply: ControlResult },
}

/// The serialized processing trace of `events`: for each event, its
/// transition is applied and then its reply is written, before the next
/// event is dequeued.
pub open spec fn spec_event_trace(sup: Supervisor, events: Seq<ControlSignal>) -> Seq<EventRecord> {
    Seq::new(
        2 * events.len(),
        |j: int|
            if j % 2 == 0 {
                EventRecord::Applied {
                    index: j / 2,
                    pre: spec_sup_at(sup, events, j / 2),
                    post: spec_sup_at(sup, events, j / 2 + 1),
                }
            } else {
                EventRecord::Replied {
                    index: (j - 1) / 2,
                    reply: spec_outcome_at(sup, events, (j - 1) / 2).reply,
                }
            },
    )
}

/// Strict serialization: in the processing trace, the reply for control
/// event `n` is written strictly before the transition for event `n + 1` is
/// applied, and each applied transition is exactly one `spec_control_step`.
pub proof fn lemma_strict_serialization(sup: Supervisor, events: Seq<ControlSignal>, n: int)
    requires
        0 <= n,
        n + 1 < events.len(),
    ensures
        spec_event_trace(sup, events)[2 * n + 1] == (EventRecord::Replied {
            index: n,
            reply: spec_outcome_at(sup, events, n).reply,
        }),
        spec_event_trace(sup, events)[2 * (n + 1)] == (EventRecord::Applied {
            index: n + 1,
            pre: spec_sup_at(sup, events, n + 1),
            post: spec_sup_at(sup, events, n + 2),
        }),
        2 * n + 1 < 2 * (n + 1),
        spec_sup_at(sup, events, n + 1) == spec_control_step(spec_sup_at(sup, events, n), events[n]).0,
{
    lemma_sup_after_snoc(sup, events, n);
    assert((2 * n + 1) % 2 == 1);
    assert((2 * (n + 1)) % 2 == 0);
    assert((2 * n + 1 - 1) / 2 == n);
    assert((2 * (n + 1)) / 2 == n + 1);
}

/// What a batch of control events produced: the replies written, in order;
/// the actions decided, in order; how many events were processed before the
/// loop exited; and whether it exited because a transition terminated it.
pub struct BatchOutcome {
    pub replies: Vec<ControlResult>,
    pub actions: Vec<SupervisorAction>,
    pub processed: usize,
    pub terminated: bool,
}

impl Supervisor {
    /// Process queued control events strictly in arrival order, one event
    /// to completion before the next is dequeued, exiting after the first
    /// transition whose terminate flag is set.
    pub fn run_control_sequence(self, events: &Vec<ControlSignal>) -> (r: (Supervisor, BatchOutcome))
        requires
            self.wf(),
        ensures
            r.0.wf(),
            r.1.processed <= events@.len(),
            r.1.replies@.len() == r.1.processed,
            r.1.actions@.len() == r.1.processed,
            r.0 == spec_sup_at(self, events@, r.1.processed as int),
            forall|n: int|
                0 <= n < r.1.processed ==> #[trigger] r.1.replies@[n] == spec_outcome_at(
                    self,
                    events@,
                    n,
                ).reply,
            forall|n: int|
                0 <= n < r.1.processed ==> #[trigger] r.1.actions@[n] == spec_outcome_at(
                    self,
                    events@,
                    n,
                ).action,
            forall|n: int|
                0 <= n < r.1.processed as int - 1 ==> !(#[trigger] spec_outcome_at(
                    self,
                    events@,
                    n,
                ).terminate),
            r.1.terminated ==> r.1.processed > 0 && spec_outcome_at(
                self,
                events@,
                r.1.processed as int - 1,
            ).terminate,
            !r.1.terminated ==> r.1.processed == events@.len(),
            !r.1.terminated && r.1.processed > 0 ==> !spec_outcome_at(
                self,
                events@,
                r.1.processed as int - 1,
            ).terminate,
    {
        let ghost sup0 = self;
        let mut sup = self;
        let mut replies: Vec<ControlResult> = Vec::new();
        let mut actions: Vec<SupervisorAction> = Vec::new();
        let mut i: usize = 0;
        let mut terminated: bool = false;
        proof {
            assert(events@.take(0) =~= Seq::<ControlSignal>::empty());
        }
        while i < events.len() && !terminated
            invariant
                i <= events@.len(),
                sup.wf(),
                replies@.len() == i as int,
                actions@.len() == i as int,
                sup == spec_sup_at(sup0, events@, i as int),
                forall|n: int|
                    0 <= n < i as int ==> #[trigger] replies@[n] == spec_outcome_at(
                        sup0,
                        events@,
                        n,
                    ).reply,
                forall|n: int|
                    0 <= n < i as int ==> #[trigger] actions@[n] == spec_outcome_at(
                        sup0,
                        events@,
                        n,
                    ).action,
                forall|n: int|
                    0 <= n < i as int - 1 ==> !(#[trigger] spec_outcome_at(
                        sup0,
                        events@,
                        n,
                    ).terminate),
                terminated ==> i > 0 && spec_outcome_at(sup0, events@, i as int - 1).terminate,
                !terminated && i > 0 ==> !spec_outcome_at(sup0, events@, i as int - 1).terminate,
            decreases events@.len() - i,
        {
            let sig = events[i];
            proof {
                lemma_sup_after_snoc(sup0, events@, i as int);
            }
            let stepped = sup.control_step(sig);
            let outcome = stepped.1;
            replies.push(outcome.reply);
            actions.push(outcome.action);
            if outcome.terminate {
                terminated = true;
            }
            sup = stepped.0;
            i = i + 1;
        }
        (sup, BatchOutcome { replies, actions, processed: i, terminated })
    }
}

/// The supervisor after the lifecycle signals `sigs`, applied in order.
pub open spec fn spec_sup_run(sup: Supervisor, sigs: Seq<LifecycleSignal>) -> Supervisor
    decreases sigs.len(),
{
    if sigs.len() == 0 {
        sup
    } else {
        spec_sup_run(spec_lifecycle_step(sup, sigs[0]).0, sigs.skip(1))
    }
}

/// The action decided for lifecycle signal `k` of `sigs`.
pub open spec fn spec_run_action_at(sup: Supervisor, sigs: Seq<LifecycleSignal>, k: int) -> SupervisorAction {
    spec_lifecycle_step(spec_sup_run(sup, sigs.take(k)), sigs[k]).1
}

/// How many of the first `k` lifecycle signals spawned a server run.
pub open spec fn spec_spawns_before(sup: Supervisor, sigs: Seq<LifecycleSignal>, k: int) -> int
    decreases k,
{
    if k <= 0 {
        0
    } else {
        spec_spawns_before(sup, sigs, k - 1) + if spec_run_action_at(sup, sigs, k - 1) is SpawnServer {
            1int
        } else {
            0int
        }
    }
}

/// How many of the first `k` lifecycle signals cancelled and joined a
/// server run.
pub open spec fn spec_joins_before(sup: Supervisor, sigs: Seq<LifecycleSignal>, k: int) -> int
    decreases k,
{
    if k <= 0 {
        0
    } else {
        spec_joins_before(sup, sigs, k - 1) + if spec_run_action_at(sup, sigs, k - 1) is CancelAndJoin {
            1int
        } else {
            0int
        }
    }
}

/// Applying one more lifecycle signal is one more `spec_lifecycle_step`.
pub proof fn lemma_sup_run_snoc(sup: Supervisor, sigs: Seq<LifecycleSignal>, i: int)
    requires
        0 <= i < sigs.len(),
    ensures
        spec_sup_run(sup, sigs.take(i + 1)) == spec_lifecycle_step(
            spec_sup_run(sup, sigs.take(i)),
            sigs[i],
        ).0,
    decreases i,
{
    if i == 0 {
        let first = sigs.take(1);
        assert(sigs.take(0) =~= Seq::<LifecycleSignal>::empty());
        assert(first.len() == 1);
        assert(first[0] == sigs[0]);
        assert(first.skip(1) =~= Seq::<LifecycleSignal>::empty());
        assert(spec_sup_run(sup, first) == spec_sup_run(
            spec_lifecycle_step(sup, sigs[0]).0,
            first.skip(1),
        ));
    } else {
        let sup1 = spec_lifecycle_step(sup, sigs[0]).0;
        let tail = sigs.skip(1);
        assert(sigs.take(i + 1).len() == i + 1);
        assert(sigs.take(i + 1)[0] == sigs[0]);
        assert(sigs.take(i + 1).skip(1) =~= tail.take(i));
        assert(spec_sup_run(sup, sigs.take(i + 1)) == spec_sup_run(sup1, tail.take(i)));
        assert(sigs.take(i)[0] == sigs[0]);
        assert(sigs.take(i).skip(1) =~= tail.take(i - 1));
        assert(spec_sup_run(sup, sigs.take(i)) == spec_sup_run(sup1, tail.take(i - 1)));
        lemma_sup_run_snoc(sup1, tail, i - 1);
        assert(spec_sup_run(sup1, tail.take(i)) == spec_lifecycle_step(
            spec_sup_run(sup1, tail.take(i - 1)),
            tail[i - 1],
        ).0);
        assert(tail[i - 1] == sigs[i]);
    }
}

/// At most one server instance: along any run of the lifecycle machine from
/// a stopped, well-formed supervisor, the number of spawned runs never
/// exceeds the number of cancelled-and-joined runs by more than one, and it
/// exceeds it exactly while the machine is `Running`. Since the supervisor
/// joins the active run to completion inside the very transition that
/// leaves `Running`, and spawns only from `Stopped`, no two server runs for
/// the address are ever concurrently bound.
pub proof fn lemma_at_most_one_instance(sup: Supervisor, sigs: Seq<LifecycleSignal>, k: int)
    requires
        sup.wf(),
        sup.state is Stopped,
        0 <= k <= sigs.len(),
    ensures
        spec_sup_run(sup, sigs.take(k)).wf(),
        spec_sup_run(sup, sigs.take(k)).state.address() == sup.state.address(),
        spec_spawns_before(sup, sigs, k) - spec_joins_before(sup, sigs, k) == if spec_sup_run(
            sup,
            sigs.take(k),
        ).state is Running {
            1int
        } else {
            0int
        },
        0 <= spec_spawns_before(sup, sigs, k) - spec_joins_before(sup, sigs, k) <= 1,
    decreases k,
{
    if k == 0 {
        assert(sigs.take(0) =~= Seq::<LifecycleSignal>::empty());
    } else {
        lemma_at_most_one_instance(sup, sigs, k - 1);
        lemma_sup_run_snoc(sup, sigs, k - 1);
        let pre = spec_sup_run(sup, sigs.take(k - 1));
        crate::lifecycle::lemma_transition_table(pre.state, sigs[k - 1], pre.next_run_id);
    }
}

/// A spawn happens only while no run is active, and a cancel-join hands
/// back exactly the handle pair of the run that was active: the old run is
/// joined inside the transition that retires it, before any later spawn.
pub proof fn lemma_spawn_join_discipline(sup: Supervisor, sigs: Seq<LifecycleSignal>, j: int)
    requires
        sup.wf(),
        sup.state is Stopped,
        0 <= j < sigs.len(),
    ensures
        spec_run_action_at(sup, sigs, j) is SpawnServer ==> spec_sup_run(
            sup,
            sigs.take(j),
        ).state is Stopped,
        spec_run_action_at(sup, sigs, j) matches SupervisorAction::CancelAndJoin { run } ==> (
        spec_sup_run(sup, sigs.take(j)).state matches LifecycleState::Running { run: active, .. }
            && run == active),
{
    lemma_at_most_one_instance(sup, sigs, j);
    let pre = spec_sup_run(sup, sigs.take(j));
    crate::lifecycle::lemma_transition_table(pre.state, sigs[j], pre.next_run_id);
}

} // verus!
