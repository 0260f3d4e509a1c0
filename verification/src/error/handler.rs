//! Failures raised on the messaging path: what a caller of `ask` can see,
//! and how the dispatch side classifies a handler invocation that went wrong.

use vstd::prelude::*;

verus! {

/// The receiving end of a mailbox (or of a reply slot) is gone or closed, so a
/// message or reply could not be delivered. The payload describes the cause.
#[derive(Debug, Clone, PartialEq, Eq)]
pub struct ReceiverClosedError(pub String);

impl ReceiverClosedError {
    /// Wraps a description of the transport failure.
    pub fn new(source: String) -> (r: Self)
        ensures
            r.0 == source,
    {
        ReceiverClosedError(source)
    }
}

/// The handler could not produce or deliver a valid answer; sent through the
/// reply slot in place of a real answer so the asking side never hangs.
#[derive(Debug, Clone, PartialEq, Eq)]
pub struct ReceiverHandlerError;

/// What a caller of `ask` can observe when no answer arrives.
#[derive(Debug, Clone, PartialEq, Eq)]
pub enum AskError {
    /// The message could not be enqueued, or the consumer vanished before
    /// answering. Recoverable by the caller: the actor is dead.
    ReceiverClosed(ReceiverClosedError),
    /// The consumer explicitly reported that it could not produce an answer.
    ReceiverHandlerError(ReceiverHandlerError),
}

/// Dispatch-side classification of an ask handler invocation.
#[derive(Debug, Clone, PartialEq, Eq)]
pub enum AskHandlerError<E> {
    /// The handler produced an answer, but the asking side was gone: a valid
    /// reply could not be delivered. Not a handler fault.
    SendOk,
    /// Double failure: the handler failed, and the failure marker could not be
    /// delivered to the asking side either.
    SendError(E),
    /// The handler failed; the asking side was informed.
    Handle(E),
}

/// Dispatch-side failure of a tell handler: the handler's own error, unchanged.
#[derive(Debug, Clone, PartialEq, Eq)]
pub struct TellHandlerError<E>(pub E);

/// Any dispatch failure, as handed to the supervision loop's `on_error` hook.
#[derive(Debug, Clone, PartialEq, Eq)]
pub enum BaseHandlerError<E> {
    AskHandlerError(AskHandlerError<E>),
    TellHandlerError(TellHandlerError<E>),
}

impl<E> From<AskHandlerError<E>> for BaseHandlerError<E> {
    fn from(value: AskHandlerError<E>) -> (r: Self) {
        BaseHandlerError::AskHandlerError(value)
    }
}

impl<E> vstd::std_specs::convert::FromSpecImpl<AskHandlerError<E>> for BaseHandlerError<E> {
    open spec fn obeys_from_spec() -> bool {
        true
    }

    open spec fn from_spec(value: AskHandlerError<E>) -> Self {
        BaseHandlerError::AskHandlerError(value)
    }
}

impl<E> From<TellHandlerError<E>> for BaseHandlerError<E> {
    fn from(value: TellHandlerError<E>) -> (r: Self) {
        BaseHandlerError::TellHandlerError(value)
    }
}

impl<E> vstd::std_specs::convert::FromSpecImpl<TellHandlerError<E>> for BaseHandlerError<E> {
    open spec fn obeys_from_spec() -> bool {
        true
    }

    open spec fn from_spec(value: TellHandlerError<E>) -> Self {
        BaseHandlerError::TellHandlerError(value)
    }
}

/// An unclassified failure that the runtime cannot interpret further.
#[derive(Debug, Clone, PartialEq, Eq)]
pub struct FatalError(pub String);

/// Ready-made error type for actors that do not declare their own: every
/// failure is fatal.
#[derive(Debug, Clone, PartialEq, Eq)]
pub enum DefaultHandlerError {
    Fatal(FatalError),
}

impl DefaultHandlerError {
    /// Wraps an arbitrary failure description as a fatal error.
    pub fn fatal(message: String) -> (r: Self)
        ensures
            r == DefaultHandlerError::Fatal(FatalError(message)),
    {
        DefaultHandlerError::Fatal(FatalError(message))
    }
}

} // verus!
