//! The shutdown handshake: a shared, single-fire cancellation flag with any
//! number of independent observers.
//!
//! A `ShutdownToken` pairs a verified cancellation flag with the runtime
//! cancellation primitive the served routine actually waits on. The
//! supervisor is the only holder of the token itself and the only caller of
//! `cancel`, so the flag is an exact mirror of the runtime token's state.
//! Observers are handed out freely; each resolves exactly once, at the
//! first cancellation, however many exist and whenever they were created.

use vstd::prelude::*;

use tokio_util::sync::CancellationToken;

verus! {

#[verifier::external_type_specification]
#[verifier::external_body]
pub struct ExCancellationToken(CancellationToken);

/// Relies on tokio_util::sync::CancellationToken::new: a fresh runtime
/// token in the non-cancelled state, observed by nobody yet.
pub assume_specification[ CancellationToken::new ]() -> CancellationToken;

/// Relies on tokio_util::sync::CancellationToken::cancel: fires the runtime
/// token, waking every task waiting on it or on a clone of it; idempotent.
/// The effect lives in shared interior state, so nothing of it can be
/// stated about the handle value itself.
pub assume_specification[ CancellationToken::cancel ](t: &CancellationToken);

/// Relies on <tokio_util::sync::CancellationToken as Clone>::clone: the
/// clone shares the original's cancellation state, so it gets cancelled
/// whenever the original is, and vice versa.
pub assume_specification[ <CancellationToken as Clone>::clone ](t: &CancellationToken) -> CancellationToken;

/// The single-fire shutdown handshake of one server run.
pub struct ShutdownToken {
    /// Whether `cancel` has run on this token. The supervisor holds the
    /// only `ShutdownToken` of a run and is the only caller of `cancel`,
    /// so this flag mirrors the runtime token's state exactly.
    pub cancelled: bool,
    /// The runtime cancellation primitive observers wait on.
    pub signal: CancellationToken,
}

/// The token after a cancellation request: the flag is set, the runtime
/// signal handle is untouched.
pub open spec fn spec_cancel(t: ShutdownToken) -> ShutdownToken {
    ShutdownToken { cancelled: true, signal: t.signal }
}

/// Whether an observer of `source` has resolved: exactly when `source` has
/// been cancelled. Resolution depends only on the token's shared state,
/// never on the observer itself, so every observer of one token resolves
/// together, at the first `cancel`.
pub open spec fn spec_observer_resolved(o: ShutdownObserver, source: ShutdownToken) -> bool {
    source.cancelled
}

impl ShutdownToken {
    /// A fresh token, not yet cancelled.
    pub fn new() -> (t: ShutdownToken)
        ensures
            !t.cancelled,
    {
        ShutdownToken { cancelled: false, signal: CancellationToken::new() }
    }

    /// Request shutdown. The first call fires the signal and resolves every
    /// observer; any later call finds the flag already set and changes
    /// nothing more.
    pub fn cancel(&mut self)
        ensures
            *final(self) == spec_cancel(*old(self)),
            final(self).cancelled,
    {
        self.signal.cancel();
        self.cancelled = true;
    }

    /// Whether cancellation has been requested on this token.
    pub fn is_cancelled(&self) -> (b: bool)
        ensures
            b == self.cancelled,
    {
        self.cancelled
    }

    /// A fresh, independent observer of this token. Taken after
    /// cancellation, it is already resolved.
    pub fn observer(&self) -> (o: ShutdownObserver)
        ensures
            spec_observer_resolved(o, *self) == self.cancelled,
    {
        ShutdownObserver { signal: self.signal.clone() }
    }
}

/// One independent observer of a shutdown token: what the served routine
/// holds to learn of cancellation.
pub struct ShutdownObserver {
    /// A clone of the observed token's runtime primitive; it fires when the
    /// token is cancelled.
    pub signal: CancellationToken,
}

impl ShutdownObserver {
    /// Whether this observer has resolved, given the token it observes.
    pub fn is_resolved(&self, source: &ShutdownToken) -> (b: bool)
        ensures
            b == spec_observer_resolved(*self, *source),
    {
        source.is_cancelled()
    }

    /// Surrender the runtime primitive so the serving routine can await it.
    pub fn into_signal(self) -> (s: CancellationToken) {
        self.signal
    }
}

/// Cancellation fan-out: after a `cancel`, every observer — existing or
/// requested later — is resolved; before the first `cancel` none is; and a
/// second `cancel` is a no-op. Nothing ever clears the flag, so each
/// observer resolves exactly once, at the first cancellation.
pub proof fn lemma_cancel_fan_out(t: ShutdownToken)
    ensures
        spec_cancel(t).cancelled,
        forall|o: ShutdownObserver| spec_observer_resolved(o, spec_cancel(t)),
        !t.cancelled ==> forall|o: ShutdownObserver| !spec_observer_resolved(o, t),
        spec_cancel(spec_cancel(t)) == spec_cancel(t),
{
}

} // verus!
