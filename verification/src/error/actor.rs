//! Lifecycle-fatal failures: a hook of the actor itself (`init`, `on_stop`,
//! `on_error`) failed. These terminate the supervision loop and are never
//! retried automatically.

use vstd::prelude::*;

verus! {

/// `init` failed: the actor never reaches its running state and its mailbox
/// is never drained.
#[derive(Debug, Clone, PartialEq, Eq)]
pub struct ActorInitFailure(pub String);

impl ActorInitFailure {
    /// Wraps a description of the underlying failure.
    pub fn new(source: String) -> (r: Self)
        ensures
            r.0 == source,
    {
        ActorInitFailure(source)
    }
}

/// `on_stop` failed while finalizing the actor's state.
#[derive(Debug, Clone, PartialEq, Eq)]
pub struct ActorStopFailure(pub String);

impl ActorStopFailure {
    /// Wraps a description of the underlying failure.
    pub fn new(source: String) -> (r: Self)
        ensures
            r.0 == source,
    {
        ActorStopFailure(source)
    }
}

/// `on_error` itself failed while deciding how to recover from a dispatch
/// failure.
#[derive(Debug, Clone, PartialEq, Eq)]
pub struct ActorHandleErrorFailure(pub String);

impl ActorHandleErrorFailure {
    /// Wraps a description of the underlying failure.
    pub fn new(source: String) -> (r: Self)
        ensures
            r.0 == source,
    {
        ActorHandleErrorFailure(source)
    }
}

/// Why a supervision loop terminated abnormally.
#[derive(Debug, Clone, PartialEq, Eq)]
pub enum ActorRuntimeError {
    Init(ActorInitFailure),
    Stop(ActorStopFailure),
    HandleError(ActorHandleErrorFailure),
}

} // verus!
