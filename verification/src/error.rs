//! The error taxonomy of the runtime.
//!
//! The general kinds live directly in this module; the failures specific to
//! the messaging path are under [`handler`], and the lifecycle-fatal ones
//! under [`actor`].

pub mod actor;
pub mod handler;

use vstd::prelude::*;

verus! {

/// The receiving end of a channel is gone or closed, so a message could not
/// be delivered. The payload describes the cause.
#[derive(Debug, Clone, PartialEq, Eq)]
pub struct ReceiverClosedError(pub String);

impl ReceiverClosedError {
    /// Wraps a description of the transport failure.
    pub fn new(source: String) -> (r: Self)
        ensures
            r.0 == source,
    {
        ReceiverClosedError(source)
    }
}

/// The receiver could not produce or deliver a valid answer to a call.
#[derive(Debug, Clone, PartialEq, Eq)]
pub struct ReceiverHandleError;

/// What a caller of a request/response call can observe when no answer
/// arrives.
#[derive(Debug, Clone, PartialEq, Eq)]
pub enum CallError {
    ReceiverClosed(ReceiverClosedError),
    ReceiverHandleError(ReceiverHandleError),
}

/// Classification of a call handler invocation that went wrong.
#[derive(Debug, Clone, PartialEq, Eq)]
pub enum CallHandleError<E> {
    /// A valid answer existed but could not be delivered to the caller.
    SendOk,
    /// The handler failed, and the failure marker could not be delivered
    /// either.
    SendError(E),
    /// The handler failed; the caller was informed.
    Handle(E),
}

/// Any handler failure: either on the call path or on the tell path.
#[derive(Debug, Clone, PartialEq, Eq)]
pub enum HandleError<E> {
    CallHandleError(CallHandleError<E>),
    TellHandleError(E),
}

impl<E> From<CallHandleError<E>> for HandleError<E> {
    fn from(value: CallHandleError<E>) -> (r: Self) {
        HandleError::CallHandleError(value)
    }
}

impl<E> vstd::std_specs::convert::FromSpecImpl<CallHandleError<E>> for HandleError<E> {
    open spec fn obeys_from_spec() -> bool {
        true
    }

    open spec fn from_spec(value: CallHandleError<E>) -> Self {
        HandleError::CallHandleError(value)
    }
}

/// `init` failed while producing the actor's initial state.
#[derive(Debug, Clone, PartialEq, Eq)]
pub struct ActorInitError(pub String);

impl ActorInitError {
    /// Wraps a description of the underlying failure.
    pub fn new(source: String) -> (r: Self)
        ensures
            r.0 == source,
    {
        ActorInitError(source)
    }
}

/// `on_stop` failed while finalizing the actor's state.
#[derive(Debug, Clone, PartialEq, Eq)]
pub struct ActorStopError(pub String);

impl ActorStopError {
    /// Wraps a description of the underlying failure.
    pub fn new(source: String) -> (r: Self)
        ensures
            r.0 == source,
    {
        ActorStopError(source)
    }
}

/// An unclassified failure that the runtime cannot interpret further.
#[derive(Debug, Clone, PartialEq, Eq)]
pub struct FatalError(pub String);

/// Ready-made error type for actors that do not declare their own: every
/// failure is fatal.
#[derive(Debug, Clone, PartialEq, Eq)]
pub enum DefaultHandleError {
    Fatal(FatalError),
}

impl DefaultHandleError {
    /// Wraps an arbitrary failure description as a fatal error.
    pub fn fatal(message: String) -> (r: Self)
        ensures
            r == DefaultHandleError::Fatal(FatalError(message)),
    {
        DefaultHandleError::Fatal(FatalError(message))
    }
}

} // verus!
