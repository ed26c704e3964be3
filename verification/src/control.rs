//! Control-plane vocabulary and the control bridge's reply discipline.
//!
//! The external dispatcher delivers discrete control signals on its own
//! thread and expects a prompt reply code. The bridge turns each call into a
//! `ControlEvent` with a single-use reply slot, posts it to the supervisor,
//! blocks until the slot is written, and maps what happened to a
//! `ControlResult`.

use vstd::prelude::*;

verus! {

/// A control signal as delivered by the external control plane.
///
/// `Unsupported` stands for every signal value the service does not
/// recognize; it is acknowledged but never reaches the transition table.
#[derive(Clone, Copy, Debug, PartialEq, Eq, Structural)]
pub enum ControlSignal {
    Interrogate,
    Stop,
    Shutdown,
    Unsupported,
}

/// The reply code returned to the external dispatcher for one control call.
#[derive(Clone, Copy, Debug, PartialEq, Eq, Structural)]
pub enum ControlResult {
    NoError,
    NotImplemented,
    Other(u32),
}

/// Distinguished non-zero code: the control event could not be delivered
/// because the supervisor side of the queue is gone.
pub const DELIVERY_FAILED_CODE: u32 = 1;

/// Distinguished non-zero code: the event was delivered but its reply slot
/// was dropped before being written.
pub const REPLY_LOST_CODE: u32 = 2;

/// What the bridge returns to the external caller, as a function of whether
/// the event reached the queue and of what, if anything, was written into
/// the reply slot.
pub open spec fn spec_bridge_result(delivered: bool, reply: Option<ControlResult>) -> ControlResult {
    if !delivered {
        ControlResult::Other(DELIVERY_FAILED_CODE)
    } else {
        match reply {
            Option::Some(code) => code,
            Option::None => ControlResult::Other(REPLY_LOST_CODE),
        }
    }
}

/// Map the outcome of posting a control event and waiting on its reply slot
/// to the result code handed back to the external dispatcher.
///
/// `delivered` is whether the push into the signal queue succeeded; `reply`
/// is what the reply slot held when the wait ended (`None` when the slot was
/// dropped without a write). A failure on either side becomes a
/// distinguished non-zero `Other` code instead of blocking forever.
pub fn bridge_result(delivered: bool, reply: Option<ControlResult>) -> (r: ControlResult)
    ensures
        r == spec_bridge_result(delivered, reply),
{
    if !delivered {
        ControlResult::Other(DELIVERY_FAILED_CODE)
    } else {
        match reply {
            Option::Some(code) => code,
            Option::None => ControlResult::Other(REPLY_LOST_CODE),
        }
    }
}

/// Both bridge-side failures are surfaced as non-zero `Other` codes, and a
/// written reply is passed through unchanged.
pub proof fn lemma_bridge_failures_distinguished(reply: Option<ControlResult>, code: ControlResult)
    ensures
        spec_bridge_result(false, reply) matches ControlResult::Other(c) && c != 0,
        spec_bridge_result(true, Option::None) matches ControlResult::Other(c) && c != 0,
        spec_bridge_result(true, Option::Some(code)) == code,
{
}

/// A status report to the external service manager.
#[derive(Clone, Copy, Debug, PartialEq, Eq, Structural)]
pub struct StatusReport {
    /// Whether the service reports itself running or stopped.
    pub running: bool,
    /// Whether the manager may deliver `Stop` in the reported state.
    pub accepts_stop: bool,
    /// The exit code reported alongside the state.
    pub exit_code: u32,
}

/// The status owed to the manager: on reaching `Running`, report running
/// with `Stop` as the one accepted control; on the final exit, report
/// stopped with no accepted controls. Both report exit code zero.
pub open spec fn spec_status_report(running: bool) -> StatusReport {
    StatusReport { running, accepts_stop: running, exit_code: 0 }
}

/// The status report for the moment the service reaches `Running`
/// (`running` true) or exits for good (`running` false).
pub fn status_report(running: bool) -> (r: StatusReport)
    ensures
        r == spec_status_report(running),
        r.running == running,
        r.accepts_stop == running,
        r.exit_code == 0,
{
    StatusReport { running, accepts_stop: running, exit_code: 0 }
}

/// A single-use, write-once reply slot. It starts empty and is consumed by
/// the one write that fills it.
pub struct ReplySlot {
    pub written: Option<ControlResult>,
}

impl ReplySlot {
    /// A fresh, unwritten slot.
    pub fn new() -> (s: ReplySlot)
        ensures
            s.written is None,
    {
        ReplySlot { written: Option::None }
    }

    /// Write the single reply. Consuming `self` makes a second write
    /// unrepresentable.
    pub fn write(self, code: ControlResult) -> (s: ReplySlot)
        requires
            self.written is None,
        ensures
            s.written == Option::Some(code),
    {
        ReplySlot { written: Option::Some(code) }
    }
}

/// One control event: the signal together with the reply slot the
/// supervisor must write exactly once.
pub struct ControlEvent {
    pub signal: ControlSignal,
    pub reply: ReplySlot,
}

impl ControlEvent {
    /// A fresh event for `signal`, carrying an unwritten reply slot.
    pub fn new(signal: ControlSignal) -> (e: ControlEvent)
        ensures
            e.signal == signal,
            e.reply.written is None,
    {
        ControlEvent { signal, reply: ReplySlot::new() }
    }
}

} // verus!
