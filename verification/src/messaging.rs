//! Message envelopes and the sender views over one mailbox.
//!
//! A full [`Sender`] can tell, ask and command; splitting it hands a
//! [`MessageSender`] (tell + ask) and a [`CommandSender`] (lifecycle control
//! only) to different collaborators without duplicating capabilities.

use vstd::prelude::*;

use crate::error::handler::AskError;
use crate::error::handler::ReceiverClosedError;
use crate::error::handler::ReceiverHandlerError;
use crate::mailbox::channel_bounded;
use crate::mailbox::ChannelTx;
use crate::mailbox::ReplyTx;
use crate::mailbox::channel_send;
use crate::mailbox::channel_sender_clone;
use crate::mailbox::channel_unbounded;
use crate::mailbox::clock_now;
use crate::mailbox::reply_channel;
use crate::mailbox::reply_recv;
use crate::supervision::ActorMessage;
use crate::supervision::CommandMessage;

verus! {

/// A request expecting exactly one reply, carrying the single-use slot the
/// answer travels through.
#[verifier::reject_recursive_types(O)]
pub struct AskMessage<I, O> {
    pub request: I,
    pub tx: ReplyTx<Result<O, ReceiverHandlerError>>,
}

/// A one-way request: input only, no reply expected.
pub struct TellMessage<I>(pub I);

/// Implemented (by generated code) for each request wrapper an actor's
/// closed message enum accepts: embeds the wrapper into its enum variant.
pub trait MessageRequest<M>: Sized {
    fn get_case(self) -> M;
}

/// The full capability view over a mailbox: tell, ask and command.
#[verifier::reject_recursive_types(M)]
pub struct Sender<M> {
    tx: ChannelTx<ActorMessage<M>>,
}

/// The message-only view: tell and ask, no lifecycle control.
#[verifier::reject_recursive_types(M)]
pub struct MessageSender<M> {
    tx: ChannelTx<ActorMessage<M>>,
}

/// The command-only view: lifecycle control, no application messages.
#[verifier::reject_recursive_types(M)]
pub struct CommandSender<M> {
    tx: ChannelTx<ActorMessage<M>>,
}

/// The consumer end of a mailbox; moved into the supervision loop and never
/// accessible elsewhere.
#[verifier::reject_recursive_types(M)]
pub struct Receiver<M> {
    pub rx: crate::mailbox::ChannelRx<ActorMessage<M>>,
}

/// The one failure a tell or command send can return: the fixed description
/// of a mailbox closed for new sends.
pub open spec fn is_closed_mailbox_error(e: ReceiverClosedError) -> bool {
    e.0@ == "the mailbox is closed for new sends"@
}

/// Creates a mailbox with backpressure: at most `mailbox_size` envelopes are
/// queued at a time, and a send beyond that suspends the producer until
/// space frees or the mailbox closes. A capacity of zero is meaningless and
/// excluded.
pub fn bounded_channel<M>(mailbox_size: usize) -> (Sender<M>, Receiver<M>)
    requires
        mailbox_size >= 1,
{
    let (tx, rx) = channel_bounded::<ActorMessage<M>>(mailbox_size);
    (Sender { tx }, Receiver { rx })
}

/// Creates a mailbox whose sends never block on capacity.
pub fn unbounded_channel<M>() -> (Sender<M>, Receiver<M>) {
    let (tx, rx) = channel_unbounded::<ActorMessage<M>>();
    (Sender { tx }, Receiver { rx })
}

impl<M> Sender<M> {
    /// Gives up lifecycle control, keeping only the message capabilities.
    pub fn into_message_sender(self) -> MessageSender<M> {
        MessageSender { tx: self.tx }
    }

    /// Splits this full sender into its two capability views. The full
    /// sender is consumed: its capabilities are distributed, not duplicated,
    /// and the mailbox stays open while either view remains live.
    pub fn split(self) -> (MessageSender<M>, CommandSender<M>) {
        let message_tx = channel_sender_clone(&self.tx);
        (MessageSender { tx: message_tx }, CommandSender { tx: self.tx })
    }

    /// Enqueues a lifecycle command; it is interpreted, not dispatched, when
    /// dequeued, in its FIFO position. Fails exactly when the mailbox is
    /// closed, and then only with the fixed closed-mailbox error.
    pub fn command(&self, command: CommandMessage) -> (r: Result<(), ReceiverClosedError>)
        ensures
            r matches Err(e) ==> is_closed_mailbox_error(e),
    {
        send_command(self, command)
    }

    /// Enqueues a one-way message and returns once enqueued, not once
    /// processed; suspends while a bounded mailbox is full. Fails exactly
    /// when the mailbox is closed, and then only with the fixed
    /// closed-mailbox error.
    pub fn tell<I>(&self, value: I) -> (r: Result<(), ReceiverClosedError>) where
        TellMessage<I>: MessageRequest<M>,
        ensures
            r matches Err(e) ==> is_closed_mailbox_error(e),
    {
        send_tell(self, value, None)
    }

    /// Like `tell`, but the envelope carries an expiry duration measured
    /// from its enqueue time. The expiry travels as metadata on the queued
    /// envelope only: the supervision loop dispatches the message regardless
    /// and discards the stamp at dequeue, so the runtime enforces no expiry;
    /// only a consumer that interprets envelopes itself could.
    pub fn tell_with_ttl<I>(&self, value: I, ttl: std::time::Duration) -> (r: Result<
        (),
        ReceiverClosedError,
    >) where TellMessage<I>: MessageRequest<M>
        ensures
            r matches Err(e) ==> is_closed_mailbox_error(e),
    {
        send_tell(self, value, Some(ttl))
    }

    /// Enqueues a request and suspends until the reply slot resolves: with
    /// the handler's answer, or with a defined failure when the mailbox or
    /// the slot closes first. The result is always a lawful resolution of
    /// some reply-slot outcome — the handler's value, the handler-rejection
    /// error, or a closed-channel failure, nothing else.
    pub fn ask<I, O>(&self, value: I) -> (r: Result<O, AskError>) where
        AskMessage<I, O>: MessageRequest<M>,
        ensures
            exists|reply: Option<Result<O, ReceiverHandlerError>>| ask_resolution(reply, r),
    {
        send_ask(self, value, None)
    }
}

impl<M> MessageSender<M> {
    /// Enqueues a one-way message; see [`Sender::tell`].
    pub fn tell<I>(&self, value: I) -> (r: Result<(), ReceiverClosedError>) where
        TellMessage<I>: MessageRequest<M>,
        ensures
            r matches Err(e) ==> is_closed_mailbox_error(e),
    {
        send_tell(self, value, None)
    }

    /// Like `tell`, but the envelope carries an expiry duration; see
    /// [`Sender::tell_with_ttl`].
    pub fn tell_with_ttl<I>(&self, value: I, ttl: std::time::Duration) -> (r: Result<
        (),
        ReceiverClosedError,
    >) where TellMessage<I>: MessageRequest<M>
        ensures
            r matches Err(e) ==> is_closed_mailbox_error(e),
    {
        send_tell(self, value, Some(ttl))
    }

    /// Enqueues a request and awaits its reply; see [`Sender::ask`].
    pub fn ask<I, O>(&self, value: I) -> (r: Result<O, AskError>) where
        AskMessage<I, O>: MessageRequest<M>,
        ensures
            exists|reply: Option<Result<O, ReceiverHandlerError>>| ask_resolution(reply, r),
    {
        send_ask(self, value, None)
    }
}

impl<M> CommandSender<M> {
    /// Enqueues a lifecycle command; see [`Sender::command`].
    pub fn command(&self, command: CommandMessage) -> (r: Result<(), ReceiverClosedError>)
        ensures
            r matches Err(e) ==> is_closed_mailbox_error(e),
    {
        send_command(self, command)
    }
}

/// What every sender view has: a handle on the underlying channel and the
/// one way envelopes enter it.
trait AbstractSenderTrait<M> {
    fn get_tx(&self) -> &ChannelTx<ActorMessage<M>>;

    /// Enqueues one envelope; fails exactly when the mailbox is closed, and
    /// then only with the fixed closed-mailbox error.
    fn send(&self, msg: ActorMessage<M>) -> (r: Result<(), ReceiverClosedError>)
        ensures
            r matches Err(e) ==> is_closed_mailbox_error(e),
    {
        match channel_send(self.get_tx(), msg) {
            Ok(()) => Ok(()),
            Err(_rejected) => Err(
                ReceiverClosedError::new("the mailbox is closed for new sends".to_owned()),
            ),
        }
    }
}

impl<M> AbstractSenderTrait<M> for Sender<M> {
    fn get_tx(&self) -> &ChannelTx<ActorMessage<M>> {
        &self.tx
    }
}

impl<M> AbstractSenderTrait<M> for MessageSender<M> {
    fn get_tx(&self) -> &ChannelTx<ActorMessage<M>> {
        &self.tx
    }
}

impl<M> AbstractSenderTrait<M> for CommandSender<M> {
    fn get_tx(&self) -> &ChannelTx<ActorMessage<M>> {
        &self.tx
    }
}

impl<M> Clone for Sender<M> {
    fn clone(&self) -> Sender<M> {
        Sender { tx: channel_sender_clone(&self.tx) }
    }
}

impl<M> Clone for MessageSender<M> {
    fn clone(&self) -> MessageSender<M> {
        MessageSender { tx: channel_sender_clone(&self.tx) }
    }
}

impl<M> Clone for CommandSender<M> {
    fn clone(&self) -> CommandSender<M> {
        CommandSender { tx: channel_sender_clone(&self.tx) }
    }
}

/// Enqueues a lifecycle command as a command envelope; fails only with the
/// fixed closed-mailbox error.
fn send_command<SE, M>(tx: &SE, command: CommandMessage) -> (r: Result<(), ReceiverClosedError>) where
    SE: AbstractSenderTrait<M>,
    ensures
        r matches Err(e) ==> is_closed_mailbox_error(e),
 {
    let msg = ActorMessage::CommandMessage(command);
    tx.send(msg)
}

/// Wraps a one-way request in its registered envelope variant and enqueues
/// it as a regular envelope stamped with its enqueue time; fails only with
/// the fixed closed-mailbox error.
fn send_tell<SE, M, I>(tx: &SE, value: I, ttl: Option<std::time::Duration>) -> (r: Result<
    (),
    ReceiverClosedError,
>) where SE: AbstractSenderTrait<M>, TellMessage<I>: MessageRequest<M>
    ensures
        r matches Err(e) ==> is_closed_mailbox_error(e),
{
    let tell_message = TellMessage(value);
    let case = tell_message.get_case();
    let sent_at = clock_now();
    let msg = ActorMessage::RegularMessage { msg: case, sent_at, ttl };
    tx.send(msg)
}

/// Allocates a fresh reply slot, enqueues the request with it, and suspends
/// until the slot resolves; the observed outcome is mapped by
/// [`resolve_ask`]. Whatever happened, the result is a lawful resolution of
/// some reply-slot outcome: the handler's value, the handler-rejection
/// error, or a closed-channel failure — nothing else.
fn send_ask<SE, M, I, O>(tx: &SE, value: I, ttl: Option<std::time::Duration>) -> (r: Result<
    O,
    AskError,
>) where SE: AbstractSenderTrait<M>, AskMessage<I, O>: MessageRequest<M>
    ensures
        exists|reply: Option<Result<O, ReceiverHandlerError>>| ask_resolution(reply, r),
{
    let (result_tx, result_rx) = reply_channel::<Result<O, ReceiverHandlerError>>();
    let call_message = AskMessage { request: value, tx: result_tx };
    let case = call_message.get_case();
    let sent_at = clock_now();
    let msg = ActorMessage::RegularMessage { msg: case, sent_at, ttl };
    match tx.send(msg) {
        Ok(()) => {},
        Err(closed) => {
            let failed: Result<O, AskError> = Err(AskError::ReceiverClosed(closed));
            proof {
                assert(ask_resolution(None::<Result<O, ReceiverHandlerError>>, failed));
            }
            return failed;
        },
    }
    resolve_ask(reply_recv(result_rx))
}

/// How an `ask` caller's result relates to the outcome its reply slot
/// reached it with: the handler's value exactly when one was delivered, a
/// handler rejection exactly when the consumer reported one, and a
/// closed-channel failure exactly when the slot was abandoned.
pub open spec fn ask_resolution<O>(
    reply: Option<Result<O, ReceiverHandlerError>>,
    r: Result<O, AskError>,
) -> bool {
    match reply {
        Some(Ok(v)) => r == Ok::<O, AskError>(v),
        Some(Err(_)) => r == Err::<O, AskError>(
            AskError::ReceiverHandlerError(ReceiverHandlerError),
        ),
        None => r matches Err(e) && e is ReceiverClosed,
    }
}

/// Maps the outcome of a reply slot to what the `ask` caller observes.
/// Total over every outcome the slot can reach: a defined result exists even
/// for an abandoned slot, so a caller never hangs on a dead actor.
pub fn resolve_ask<O>(reply: Option<Result<O, ReceiverHandlerError>>) -> (r: Result<O, AskError>)
    ensures
        ask_resolution(reply, r),
{
    match reply {
        Some(Ok(v)) => Ok(v),
        Some(Err(ReceiverHandlerError)) => Err(
            AskError::ReceiverHandlerError(ReceiverHandlerError),
        ),
        None => Err(
            AskError::ReceiverClosed(
                ReceiverClosedError::new(
                    "the reply slot was dropped before an answer arrived".to_owned(),
                ),
            ),
        ),
    }
}

/// `ask` always resolves: every outcome of the reply slot — a delivered
/// answer, an explicit rejection, or abandonment — admits a defined result
/// for the caller, and a delivered answer determines it exactly.
pub proof fn lemma_ask_always_resolves<O>(reply: Option<Result<O, ReceiverHandlerError>>)
    ensures
        exists|r: Result<O, AskError>| ask_resolution(reply, r),
        reply matches Some(Ok(v)) ==> forall|r: Result<O, AskError>|
            #[trigger] ask_resolution(reply, r) ==> r == Ok::<O, AskError>(v),
{
    match reply {
        Some(Ok(v)) => {
            assert(ask_resolution(reply, Ok::<O, AskError>(v)));
        },
        Some(Err(e)) => {
            assert(ask_resolution(
                reply,
                Err::<O, AskError>(AskError::ReceiverHandlerError(ReceiverHandlerError)),
            ));
        },
        None => {
            let s = vstd::pervasive::arbitrary::<String>();
            assert(ask_resolution(
                reply,
                Err::<O, AskError>(AskError::ReceiverClosed(ReceiverClosedError(s))),
            ));
        },
    }
}

} // verus!
