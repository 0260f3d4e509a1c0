//! The dispatch contract: how one envelope's request is routed to the
//! actor's handler and how every failure mode of that invocation is
//! classified.
//!
//! The closed per-actor message enum and the exhaustive match over it are
//! supplied by generated code outside this crate; that code funnels each
//! variant through [`BaseHandler`], so the classification below is the one
//! place where the ask and tell protocols are decided.

use vstd::prelude::*;

use crate::error::handler::AskHandlerError;
use crate::error::handler::BaseHandlerError;
use crate::error::handler::ReceiverHandlerError;
use crate::error::handler::TellHandlerError;
use crate::mailbox::reply_send;
use crate::mailbox::ReplyTx;
use crate::messaging::AskMessage;
use crate::messaging::TellMessage;

verus! {

/// The single entry point generated dispatch code funnels every request
/// wrapper through.
pub struct BaseHandler;

/// Dispatch of one request wrapper `M` for an actor `A` with state `S`,
/// producing `R`.
pub trait BaseHandlerTrait<A, S, M, R> {
    fn _handle(actor: &A, state: &mut S, msg: M) -> R;
}

/// The outcome an ask dispatch reports, given whether the handler failed and
/// whether the write to the reply slot was delivered.
///
/// This is the whole classification table of the ask protocol: success only
/// when the handler succeeded and its answer reached the asking side; an
/// undeliverable valid answer is reported as such and not as a handler
/// fault; a handler failure whose marker reached the asker carries the
/// handler's error; and a double failure — handler failed, marker
/// undeliverable too — is reported distinctly, still carrying the handler's
/// error.
pub fn classify_ask_dispatch<E>(handler_error: Option<E>, delivered: bool) -> (r: Result<
    (),
    AskHandlerError<E>,
>)
    ensures
        r is Ok <==> (handler_error is None && delivered),
        handler_error is None && !delivered ==> r == Err::<(), AskHandlerError<E>>(
            AskHandlerError::SendOk,
        ),
        handler_error matches Some(e) ==> r == Err::<(), AskHandlerError<E>>(
            if delivered {
                AskHandlerError::Handle(e)
            } else {
                AskHandlerError::SendError(e)
            },
        ),
{
    match handler_error {
        None => {
            if delivered {
                Ok(())
            } else {
                Err(AskHandlerError::SendOk)
            }
        },
        Some(e) => {
            if delivered {
                Err(AskHandlerError::Handle(e))
            } else {
                Err(AskHandlerError::SendError(e))
            }
        },
    }
}

/// Double failure is reported distinctly: whenever the handler failed and
/// the failure marker could not be delivered either, dispatch reports
/// exactly the double-failure kind, still carrying the handler's own error.
pub proof fn lemma_double_failure_reported<E>(e: E, r: Result<(), AskHandlerError<E>>)
    requires
        call_ensures(classify_ask_dispatch::<E>, (Some(e), false), r),
    ensures
        r == Err::<(), AskHandlerError<E>>(AskHandlerError::SendError(e)),
{
}

/// Completes one ask dispatch from the handler's result: delivers the
/// answer — or, on failure, the marker informing the asker that no real
/// answer exists — through the reply slot, and classifies the outcome by
/// [`classify_ask_dispatch`]. Success is reported only for a delivered
/// answer; a failed handler's own error is carried out whichever way the
/// delivery went. Takes no actor state: whatever the handler left there
/// stays, with no rollback, whatever the delivery outcome.
pub fn finish_ask_dispatch<O, E>(
    result: Result<O, E>,
    tx: ReplyTx<Result<O, ReceiverHandlerError>>,
) -> (r: Result<(), AskHandlerError<E>>)
    ensures
        r is Ok ==> result is Ok,
        result is Ok ==> r is Ok || r == Err::<(), AskHandlerError<E>>(AskHandlerError::SendOk),
        result matches Err(e) ==> r == Err::<(), AskHandlerError<E>>(AskHandlerError::Handle(e))
            || r == Err::<(), AskHandlerError<E>>(AskHandlerError::SendError(e)),
{
    match result {
        Ok(data) => {
            let delivered = reply_send(tx, Ok(data));
            classify_ask_dispatch(None, delivered)
        },
        Err(err) => {
            let delivered = reply_send(tx, Err(ReceiverHandlerError));
            classify_ask_dispatch(Some(err), delivered)
        },
    }
}

/// The tell protocol's whole mapping: the handler's own result passes
/// through unchanged, an error wrapped as the tell dispatch failure; no
/// reply slot exists, so there is no delivery-failure dimension.
pub fn classify_tell_dispatch<E>(handler_result: Result<(), E>) -> (r: Result<
    (),
    TellHandlerError<E>,
>)
    ensures
        r is Ok <==> handler_result is Ok,
        handler_result matches Err(e) ==> r == Err::<(), TellHandlerError<E>>(TellHandlerError(e)),
{
    match handler_result {
        Ok(()) => Ok(()),
        Err(e) => Err(TellHandlerError(e)),
    }
}

impl<A, S, I, O, E> BaseHandlerTrait<A, S, AskMessage<I, O>, Result<(), AskHandlerError<E>>> for BaseHandler where
    A: AskHandlerTrait<S, I, O, E>,
 {
    /// The ask protocol: invoke the handler, then complete through
    /// [`finish_ask_dispatch`], which takes only the handler's result and
    /// the reply slot — the state stays exactly as the handler left it.
    fn _handle(actor: &A, state: &mut S, msg: AskMessage<I, O>) -> (r: Result<
        (),
        AskHandlerError<E>,
    >) {
        let result = actor.handle(state, msg.request);
        finish_ask_dispatch(result, msg.tx)
    }
}

impl<A, S, I, E> BaseHandlerTrait<A, S, TellMessage<I>, Result<(), TellHandlerError<E>>> for BaseHandler where
    A: TellHandlerTrait<S, I, E>,
 {
    /// The tell protocol: invoke the handler and pass its result through
    /// [`classify_tell_dispatch`], whose contract pins the mapping.
    fn _handle(actor: &A, state: &mut S, msg: TellMessage<I>) -> (r: Result<
        (),
        TellHandlerError<E>,
    >) {
        let handler_result = actor.handle(state, msg.0);
        classify_tell_dispatch(handler_result)
    }
}

/// Implemented by an actor for each request type it answers: `I` in, `O`
/// out, `E` on failure.
pub trait AskHandlerTrait<S, I, O, E> {
    fn handle(&self, state: &mut S, msg: I) -> Result<O, E>;
}

/// Implemented by an actor for each one-way request type it accepts.
pub trait TellHandlerTrait<S, I, E> {
    fn handle(&self, state: &mut S, msg: I) -> Result<(), E>;
}

/// The exhaustive dispatcher over one actor's closed message enum; supplied
/// by generated code, which matches every variant and funnels it through
/// [`BaseHandler`].
pub trait ActorMessageHandlerTrait<S, M, E> {
    fn __handle(&self, state: &mut S, msg: M) -> Result<(), BaseHandlerError<E>>;
}

} // verus!
