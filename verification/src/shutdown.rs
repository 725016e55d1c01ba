//! Graceful-shutdown coordination.
//!
//! Two independent termination triggers (an interrupt signal and a terminate
//! signal) may fire in any order, possibly within the same instant.  The
//! coordinator guarantees that the shutdown sequence runs exactly once: the
//! first trigger to be reported wins, every later trigger is a no-op.

use vstd::prelude::*;

verus! {

/// Records whether the graceful-shutdown sequence has already been started.
///
/// The caller that owns the process lifecycle reports every termination
/// trigger through [`ShutdownCoordinator::request_shutdown`] and runs the
/// drain-and-exit sequence only when that call returns `true`.
pub struct ShutdownCoordinator {
    pub shutdown_started: bool,
}

/// How many times the shutdown sequence is initiated when `n` termination
/// triggers are reported, one after the other, to a coordinator whose
/// started flag is `started`.
pub open spec fn initiations(started: bool, n: nat) -> nat
    decreases n,
{
    if n == 0 {
        0
    } else {
        (if started {
            0nat
        } else {
            1nat
        }) + initiations(true, (n - 1) as nat)
    }
}

impl ShutdownCoordinator {
    /// A fresh coordinator: no shutdown has been requested yet.
    pub fn new() -> (r: ShutdownCoordinator)
        ensures
            !r.shutdown_started,
    {
        ShutdownCoordinator { shutdown_started: false }
    }

    /// Report one termination trigger.  Returns whether the caller must run
    /// the shutdown sequence: `true` exactly when this is the first trigger.
    pub fn request_shutdown(&mut self) -> (initiate: bool)
        ensures
            final(self).shutdown_started,
            initiate == !old(self).shutdown_started,
    {
        let initiate = !self.shutdown_started;
        self.shutdown_started = true;
        initiate
    }
}

/// Once the shutdown sequence has started, no later trigger initiates it again.
pub proof fn lemma_no_reinitiation(n: nat)
    ensures
        initiations(true, n) == 0,
    decreases n,
{
    if n > 0 {
        lemma_no_reinitiation((n - 1) as nat);
    }
}

/// However many termination triggers fire (at least one), a fresh coordinator
/// initiates the shutdown sequence exactly once.
pub proof fn lemma_shutdown_exactly_once(n: nat)
    requires
        n >= 1,
    ensures
        initiations(false, n) == 1,
{
    lemma_no_reinitiation((n - 1) as nat);
}

} // verus!
