//! Bootstrap decisions: how one invocation makes exactly one daemon
//! reachable. The connect, spawn and delay steps are I/O and live outside
//! the library; the rule that drives them — proceed on a reachable daemon,
//! spawn at most once, and fail rather than retry without bound — is here.

use vstd::prelude::*;

verus! {

/// What the bootstrap does next after a connect attempt.
#[derive(Clone, Copy, Debug, PartialEq, Eq, Structural)]
pub enum BootstrapAction {
    /// A daemon answered: proceed as its client over this connection.
    Proceed,
    /// Nothing answered and no daemon was spawned yet: spawn a detached
    /// daemon process, wait a short bounded delay, and try the connect once
    /// more.
    SpawnDaemon,
    /// Nothing answered even after the one spawn attempt: surface a fatal
    /// "daemon failed to start" error.
    GiveUp,
}

/// Decide the next bootstrap step from the outcome of the last connect
/// attempt and whether this invocation has already spawned a daemon. The
/// contract pins the whole protocol: success always proceeds, a daemon is
/// spawned at most once, and there is no unbounded retry.
pub fn bootstrap_decision(connected: bool, spawned: bool) -> (a: BootstrapAction)
    ensures
        connected ==> a is Proceed,
        !connected && !spawned ==> a is SpawnDaemon,
        !connected && spawned ==> a is GiveUp,
{
    if connected {
        BootstrapAction::Proceed
    } else if !spawned {
        BootstrapAction::SpawnDaemon
    } else {
        BootstrapAction::GiveUp
    }
}

} // verus!
