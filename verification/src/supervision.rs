//! The supervision loop: the single task that owns one actor's state, drains
//! its mailbox one envelope at a time, dispatches messages, and interprets
//! lifecycle commands.
//!
//! [`LifecycleModel`] is the mathematical model of that loop: its phase, how
//! many `init` and `on_stop` calls have completed, how much work the current
//! state has absorbed, and whether the mailbox is closed. The loop itself
//! tracks the model in ghost state — every decision it takes is a
//! [`LifecycleModel::step`] — and the proofs at the end of this module state
//! the lifecycle laws over the model. The model is specification: the
//! proofs pin the loop's decisions to it, while what the shared channel
//! itself does at each call stands on the trusted wrappers in
//! [`crate::mailbox`] and their documentation.

use vstd::prelude::*;

use crate::error::actor::ActorHandleErrorFailure;
use crate::error::actor::ActorInitFailure;
use crate::error::actor::ActorRuntimeError;
use crate::error::actor::ActorStopFailure;
use crate::error::handler::BaseHandlerError;
use crate::handler::ActorMessageHandlerTrait;
use crate::mailbox::channel_close;
use crate::mailbox::channel_len;
use crate::mailbox::channel_try_recv;
use crate::mailbox::channel_recv;
use crate::mailbox::MailboxModel;
use crate::messaging::Receiver;

verus! {

/// A lifecycle command, interpreted by the supervision loop itself rather
/// than dispatched to a handler.
#[derive(Debug, Clone, Copy, PartialEq, Eq, Structural)]
pub enum CommandMessage {
    /// Close the mailbox for new sends, drain what is already queued, then
    /// finalize the state with `on_stop`.
    StopActor,
    /// Terminate immediately: skip `on_stop` and abandon queued envelopes.
    ForceStopActor,
    /// Finalize the current state with `on_stop`, then re-run `init` and
    /// resume with entirely fresh state.
    RestartActor,
}

/// The queued unit of a mailbox: either a lifecycle command or a typed
/// application message with its enqueue time and optional time-to-live.
///
/// The time-to-live is carried as metadata on the queued envelope only:
/// the supervision loop dispatches an expired message like any other and
/// discards the stamp at dequeue, so the runtime enforces no expiry; only a
/// consumer that interprets envelopes itself could.
pub enum ActorMessage<M> {
    CommandMessage(CommandMessage),
    RegularMessage { msg: M, sent_at: std::time::Instant, ttl: Option<std::time::Duration> },
}

/// The capability set an actor exposes to its supervision loop. `S` is the
/// actor's private state, `E` its declared error type.
pub trait ActorTrait<S, E>: Sized {
    /// Produces the initial state, or fails fatally: the loop then
    /// terminates without ever running and the mailbox is never drained.
    fn init(&self) -> Result<S, ActorInitFailure>;

    /// Finalizes the state, which is handed over by move so the actor cannot
    /// use stale state after termination.
    fn on_stop(&self, state: S) -> Result<(), ActorStopFailure> {
        let _ = state;
        Ok(())
    }

    /// Decides how to recover from a dispatch failure; the returned command
    /// is treated exactly like a received one. Defaults to stopping.
    fn on_error(&self, state: &mut S, error: BaseHandlerError<E>) -> Result<
        Option<CommandMessage>,
        ActorHandleErrorFailure,
    > {
        let _ = error;
        Ok(Some(CommandMessage::StopActor))
    }
}

/// The phase of one supervision loop. `Draining` is the stretch after
/// `StopActor` was processed: the mailbox is closed for new sends but
/// already-queued envelopes are still dispatched. Finalizing and restarting
/// are instantaneous in the model: their hook outcomes arrive embedded in
/// the event that triggers them.
#[derive(Debug, Clone, Copy, PartialEq, Eq, Structural)]
pub enum LifecyclePhase {
    Initializing,
    Running,
    Draining,
    Terminated,
}

/// One observed turn of the supervision loop: which envelope or hook outcome
/// drove it. Commands decided by `on_error` raise the same events as
/// received ones, since the loop treats them identically.
#[derive(Debug, Clone, Copy, PartialEq, Eq, Structural)]
pub enum LoopEvent {
    /// `init` produced the initial state.
    InitSucceeded,
    /// `init` failed: fatal, the mailbox is never drained.
    InitFailed,
    /// A regular envelope was dispatched into the current state (or its
    /// failure was absorbed by `on_error` returning no command).
    Dispatched,
    /// `StopActor` was processed.
    Stop,
    /// `ForceStopActor` was processed.
    ForceStop,
    /// `RestartActor` was processed, with the outcomes of the `on_stop` and
    /// `init` calls it triggered.
    Restart { stop_ok: bool, init_ok: bool },
    /// `on_error` itself failed: fatal.
    OnErrorFailed,
    /// The mailbox is closed and every queued envelope has been taken.
    Drained,
}

/// The mathematical state of one supervision loop.
pub struct LifecycleModel {
    pub phase: LifecyclePhase,
    /// True once the loop closed its mailbox for new sends.
    pub mailbox_closed: bool,
    /// Completed `init` calls: how many state segments have existed.
    pub inits: nat,
    /// `on_stop` calls: how many segments have been finalized.
    pub stops: nat,
    /// Regular envelopes dispatched into the current state segment.
    pub dispatched_since_init: nat,
}

impl LifecycleModel {
    /// A loop that has not yet run `init`.
    pub open spec fn initial() -> Self {
        LifecycleModel {
            phase: LifecyclePhase::Initializing,
            mailbox_closed: false,
            inits: 0,
            stops: 0,
            dispatched_since_init: 0,
        }
    }

    /// Whether the loop is processing envelopes.
    pub open spec fn active(self) -> bool {
        self.phase is Running || self.phase is Draining
    }

    /// The transition the loop takes on one event. `Terminated` is
    /// absorbing, and an event that cannot occur in the current phase
    /// stutters.
    pub open spec fn step(self, ev: LoopEvent) -> Self {
        if self.phase is Terminated {
            self
        } else {
            match ev {
                LoopEvent::InitSucceeded => {
                    if self.phase is Initializing {
                        LifecycleModel {
                            phase: LifecyclePhase::Running,
                            inits: self.inits + 1,
                            dispatched_since_init: 0,
                            ..self
                        }
                    } else {
                        self
                    }
                },
                LoopEvent::InitFailed => {
                    if self.phase is Initializing {
                        LifecycleModel {
                            phase: LifecyclePhase::Terminated,
                            mailbox_closed: true,
                            ..self
                        }
                    } else {
                        self
                    }
                },
                LoopEvent::Dispatched => {
                    if self.active() {
                        LifecycleModel {
                            dispatched_since_init: self.dispatched_since_init + 1,
                            ..self
                        }
                    } else {
                        self
                    }
                },
                LoopEvent::Stop => {
                    if self.active() {
                        LifecycleModel {
                            phase: LifecyclePhase::Draining,
                            mailbox_closed: true,
                            ..self
                        }
                    } else {
                        self
                    }
                },
                LoopEvent::ForceStop => {
                    if self.active() {
                        LifecycleModel {
                            phase: LifecyclePhase::Terminated,
                            mailbox_closed: true,
                            ..self
                        }
                    } else {
                        self
                    }
                },
                LoopEvent::Restart { stop_ok, init_ok } => {
                    if self.active() {
                        if !stop_ok || !init_ok {
                            LifecycleModel {
                                phase: LifecyclePhase::Terminated,
                                mailbox_closed: true,
                                stops: self.stops + 1,
                                ..self
                            }
                        } else {
                            LifecycleModel {
                                stops: self.stops + 1,
                                inits: self.inits + 1,
                                dispatched_since_init: 0,
                                ..self
                            }
                        }
                    } else {
                        self
                    }
                },
                LoopEvent::OnErrorFailed => {
                    if self.active() {
                        LifecycleModel {
                            phase: LifecyclePhase::Terminated,
                            mailbox_closed: true,
                            ..self
                        }
                    } else {
                        self
                    }
                },
                LoopEvent::Drained => {
                    if self.active() {
                        LifecycleModel {
                            phase: LifecyclePhase::Terminated,
                            mailbox_closed: true,
                            stops: self.stops + 1,
                            ..self
                        }
                    } else {
                        self
                    }
                },
            }
        }
    }

    /// A whole run: the model after a sequence of events.
    pub open spec fn run_steps(self, evs: Seq<LoopEvent>) -> Self
        decreases evs.len(),
    {
        if evs.len() == 0 {
            self
        } else {
            self.step(evs.first()).run_steps(evs.drop_first())
        }
    }
}

/// What holds of every reachable loop state: a segment can only be
/// finalized after it was initialized — while the loop is active exactly the
/// current segment is unfinalized — and the mailbox is closed while
/// draining, never while plainly running.
pub open spec fn lifecycle_inv(m: LifecycleModel) -> bool {
    &&& m.stops <= m.inits
    &&& m.inits <= m.stops + 1
    &&& (m.phase is Initializing ==> m.inits == 0 && m.stops == 0 && !m.mailbox_closed)
    &&& (m.phase is Running ==> m.stops + 1 == m.inits && !m.mailbox_closed)
    &&& (m.phase is Draining ==> m.stops + 1 == m.inits && m.mailbox_closed)
}

/// Every step preserves the lifecycle invariant.
pub proof fn lemma_step_preserves_inv(m: LifecycleModel, ev: LoopEvent)
    requires
        lifecycle_inv(m),
    ensures
        lifecycle_inv(m.step(ev)),
{
}

/// Every run preserves the lifecycle invariant.
pub proof fn lemma_run_preserves_inv(m: LifecycleModel, evs: Seq<LoopEvent>)
    requires
        lifecycle_inv(m),
    ensures
        lifecycle_inv(m.run_steps(evs)),
    decreases evs.len(),
{
    if evs.len() > 0 {
        lemma_step_preserves_inv(m, evs.first());
        lemma_run_preserves_inv(m.step(evs.first()), evs.drop_first());
    }
}

/// A terminated loop stays terminated and unchanged: no event revives it,
/// runs no hook again, and never calls `on_stop` a second time.
pub proof fn lemma_terminated_absorbing(m: LifecycleModel, evs: Seq<LoopEvent>)
    requires
        m.phase is Terminated,
    ensures
        m.run_steps(evs) == m,
    decreases evs.len(),
{
    if evs.len() > 0 {
        lemma_terminated_absorbing(m.step(evs.first()), evs.drop_first());
    }
}

/// `ForceStopActor` never triggers `on_stop`: it terminates the loop with
/// the `on_stop` count unchanged, leaving exactly the current segment
/// unfinalized.
pub proof fn lemma_force_stop_skips_on_stop(m: LifecycleModel)
    requires
        lifecycle_inv(m),
        m.active(),
    ensures
        m.step(LoopEvent::ForceStop).phase is Terminated,
        m.step(LoopEvent::ForceStop).stops == m.stops,
        m.step(LoopEvent::ForceStop).stops + 1 == m.step(LoopEvent::ForceStop).inits,
{
}

/// Draining the closed (or abandoned) mailbox triggers `on_stop` exactly
/// once: it terminates the loop with every initialized segment finalized,
/// and — by [`lemma_terminated_absorbing`] — nothing runs it again.
pub proof fn lemma_drained_runs_on_stop_once(m: LifecycleModel)
    requires
        lifecycle_inv(m),
        m.active(),
    ensures
        m.step(LoopEvent::Drained).phase is Terminated,
        m.step(LoopEvent::Drained).stops == m.stops + 1,
        m.step(LoopEvent::Drained).stops == m.step(LoopEvent::Drained).inits,
{
}

/// Processing `StopActor` closes the mailbox, and it stays closed through
/// every later event of the loop's life.
pub proof fn lemma_stop_closes_mailbox_for_good(m: LifecycleModel, evs: Seq<LoopEvent>)
    requires
        m.active(),
    ensures
        m.step(LoopEvent::Stop).mailbox_closed,
        m.step(LoopEvent::Stop).run_steps(evs).mailbox_closed,
    decreases evs.len(),
{
    lemma_closed_never_reopens(m.step(LoopEvent::Stop), evs);
}

/// A closed mailbox never reopens.
pub proof fn lemma_closed_never_reopens(m: LifecycleModel, evs: Seq<LoopEvent>)
    requires
        m.mailbox_closed,
    ensures
        m.run_steps(evs).mailbox_closed,
    decreases evs.len(),
{
    if evs.len() > 0 {
        lemma_closed_never_reopens(m.step(evs.first()), evs.drop_first());
    }
}

/// After `StopActor` is processed, no subsequently sent tell, ask or
/// command succeeds: whatever the loop does afterwards, a mailbox channel
/// agreeing with the loop's model rejects every send and is left unchanged
/// by it.
pub proof fn lemma_no_sends_succeed_after_stop<T>(
    m: LifecycleModel,
    evs: Seq<LoopEvent>,
    c: MailboxModel<T>,
    x: T,
)
    requires
        m.active(),
        c.receiver_closed == m.step(LoopEvent::Stop).run_steps(evs).mailbox_closed,
    ensures
        !c.try_enqueue(x).1,
        c.try_enqueue(x).0 == c,
{
    lemma_stop_closes_mailbox_for_good(m, evs);
}

/// `RestartActor` preserves the actor's identity but yields entirely fresh
/// state: the same loop stays in its phase on the same mailbox, the current
/// segment is finalized, a new one is initialized, and no dispatched work
/// carries over into it.
pub proof fn lemma_restart_yields_fresh_state(m: LifecycleModel)
    requires
        lifecycle_inv(m),
        m.active(),
    ensures
        ({
            let m2 = m.step(LoopEvent::Restart { stop_ok: true, init_ok: true });
            &&& m2.phase == m.phase
            &&& m2.mailbox_closed == m.mailbox_closed
            &&& m2.stops == m.stops + 1
            &&& m2.inits == m.inits + 1
            &&& m2.dispatched_since_init == 0
        }),
{
}

/// The observed outcome of dispatching one regular envelope: either the
/// handler path succeeded, or it failed and `on_error` returned this
/// recovery decision for it.
pub enum DispatchOutcome {
    Succeeded,
    Failed(Result<Option<CommandMessage>, ActorHandleErrorFailure>),
}

/// What one regular envelope's dispatch outcome means for the loop. This is
/// the whole routing table: a successful dispatch raises no command and
/// keeps the loop running; a failed one hands back exactly the recovery
/// decision `on_error` made for it — its command is then treated like a
/// received one, and its own failure passes through as the fatal error.
pub fn conclude_regular_dispatch(outcome: DispatchOutcome) -> (r: Result<
    Option<CommandMessage>,
    ActorHandleErrorFailure,
>)
    ensures
        outcome is Succeeded ==> r == Ok::<Option<CommandMessage>, ActorHandleErrorFailure>(None),
        outcome matches DispatchOutcome::Failed(decision) ==> r == decision,
{
    match outcome {
        DispatchOutcome::Succeeded => Ok(None),
        DispatchOutcome::Failed(decision) => decision,
    }
}

/// Routes one envelope: a command is handed back for the loop to interpret,
/// leaving the state untouched; a regular message is dispatched, its failure
/// handed to `on_error`, and the outcome routed by
/// [`conclude_regular_dispatch`], whose contract pins the mapping.
pub fn handle_message<A, S, M, E>(actor: &A, state: &mut S, msg: ActorMessage<M>) -> (r: Result<
    Option<CommandMessage>,
    ActorHandleErrorFailure,
>) where A: ActorMessageHandlerTrait<S, M, E> + ActorTrait<S, E>
    ensures
        msg matches ActorMessage::CommandMessage(c) ==> r == Ok::<
            Option<CommandMessage>,
            ActorHandleErrorFailure,
        >(Some(c)) && *final(state) == *old(state),
{
    match msg {
        ActorMessage::CommandMessage(command) => Ok(Some(command)),
        ActorMessage::RegularMessage { msg: actor_msg, sent_at: _, ttl: _ } => {
            let outcome = match actor.__handle(state, actor_msg) {
                Ok(()) => DispatchOutcome::Succeeded,
                Err(err) => DispatchOutcome::Failed(actor.on_error(state, err)),
            };
            conclude_regular_dispatch(outcome)
        },
    }
}

/// The live half of one supervision loop between turns: the actor's
/// current state together with the ghost lifecycle model describing it.
/// Obtained from [`start_actor_loop`], advanced by [`actor_loop_turn`].
pub struct LoopState<S> {
    state: S,
    model: Ghost<LifecycleModel>,
}

impl<S> LoopState<S> {
    /// The lifecycle model this loop state is at.
    pub closed spec fn model(self) -> LifecycleModel {
        self.model@
    }

    /// What holds of every loop state between turns: the lifecycle
    /// invariant, in an active phase.
    pub open spec fn inv(self) -> bool {
        lifecycle_inv(self.model()) && self.model().active()
    }
}

/// What one turn of the supervision loop decided.
pub enum LoopStep<S> {
    /// The loop keeps running with this state.
    KeepRunning(LoopState<S>),
    /// The loop terminated, normally or abnormally, at this final model.
    Finished(Result<(), ActorRuntimeError>, Ghost<LifecycleModel>),
}

/// Closes the mailbox and abandons every still-queued envelope: once the
/// loop terminates, nothing will dispatch them, and dropping them resolves
/// every outstanding reply slot to a receiver-closed failure instead of a
/// hang. The queue cannot grow after the close, so its length bounds the
/// sweep.
fn abandon_mailbox<M>(rx: &Receiver<M>) {
    let _ = channel_close(&rx.rx);
    let n = channel_len(&rx.rx);
    let mut i: usize = 0;
    while i < n
        invariant
            i <= n,
        decreases n - i,
    {
        let _ = channel_try_recv(&rx.rx);
        i += 1;
    }
}

/// Starts one actor's supervision loop: runs `init`. On success the loop is
/// running with the fresh state; on failure it terminates at once — the
/// queued envelopes are abandoned undispatched and `on_stop` is never
/// called.
pub fn start_actor_loop<A, S, M, E>(actor: &A, rx: &Receiver<M>) -> (r: LoopStep<S>) where
    A: ActorMessageHandlerTrait<S, M, E> + ActorTrait<S, E>,
    ensures
        r matches LoopStep::KeepRunning(n) ==> n.inv() && n.model()
            == LifecycleModel::initial().step(LoopEvent::InitSucceeded),
        r matches LoopStep::Finished(res, m) ==> {
            &&& m@ == LifecycleModel::initial().step(LoopEvent::InitFailed)
            &&& m@.phase is Terminated
            &&& m@.mailbox_closed
            &&& m@.stops == 0
            &&& res matches Err(ActorRuntimeError::Init(_))
        },
{
    let ghost m0 = LifecycleModel::initial();
    match actor.init() {
        Ok(state) => LoopStep::KeepRunning(
            LoopState { state, model: Ghost(m0.step(LoopEvent::InitSucceeded)) },
        ),
        Err(e) => {
            abandon_mailbox(rx);
            LoopStep::Finished(Err(ActorRuntimeError::Init(e)), Ghost(m0.step(LoopEvent::InitFailed)))
        },
    }
}

/// One turn of the supervision loop: receive one envelope (blocking while
/// the mailbox is open but empty), dispatch or interpret it, and run the
/// hooks the decision calls for. Every turn advances the lifecycle model by
/// exactly one step, and which step is pinned by the outcome: a turn keeps
/// running only by dispatching, closing on a stop, or completing a restart,
/// finishes successfully only by a force-stop or by draining with a clean
/// `on_stop`, and returns each error kind only from the hook failure that
/// names it. A finished loop is terminated with every `on_stop` paired with
/// an `init` and at most the current segment unfinalized.
pub fn actor_loop_turn<A, S, M, E>(actor: &A, rx: &Receiver<M>, ls: LoopState<S>) -> (r: LoopStep<
    S,
>) where A: ActorMessageHandlerTrait<S, M, E> + ActorTrait<S, E>
    requires
        ls.inv(),
    ensures
        r matches LoopStep::KeepRunning(n) ==> n.inv() && (n.model() == ls.model().step(
            LoopEvent::Dispatched,
        ) || n.model() == ls.model().step(LoopEvent::Stop) || n.model() == ls.model().step(
            LoopEvent::Restart { stop_ok: true, init_ok: true },
        )),
        r matches LoopStep::Finished(res, m) ==> {
            &&& lifecycle_inv(m@)
            &&& m@.phase is Terminated
            &&& m@.mailbox_closed
            &&& m@.stops == m@.inits || m@.stops + 1 == m@.inits
            &&& (res is Ok ==> m@ == ls.model().step(LoopEvent::ForceStop) || m@ == ls.model().step(
                LoopEvent::Drained,
            ))
            &&& (res matches Err(ActorRuntimeError::HandleError(_)) ==> m@ == ls.model().step(
                LoopEvent::OnErrorFailed,
            ))
            &&& (res matches Err(ActorRuntimeError::Stop(_)) ==> m@ == ls.model().step(
                LoopEvent::Drained,
            ) || m@ == ls.model().step(LoopEvent::Restart { stop_ok: false, init_ok: false }))
            &&& (res matches Err(ActorRuntimeError::Init(_)) ==> m@ == ls.model().step(
                LoopEvent::Restart { stop_ok: true, init_ok: false },
            ))
        },
{
    let LoopState { state, model } = ls;
    let mut state = state;
    let ghost m0 = model@;
    let next = channel_recv(&rx.rx);
    match next {
        None => {
            let ghost m1 = m0.step(LoopEvent::Drained);
            match actor.on_stop(state) {
                Ok(()) => LoopStep::Finished(Ok(()), Ghost(m1)),
                Err(e) => LoopStep::Finished(Err(ActorRuntimeError::Stop(e)), Ghost(m1)),
            }
        },
        Some(envelope) => {
            let decision = handle_message(actor, &mut state, envelope);
            match decision {
                Ok(None) => LoopStep::KeepRunning(
                    LoopState { state, model: Ghost(m0.step(LoopEvent::Dispatched)) },
                ),
                Ok(Some(CommandMessage::StopActor)) => {
                    let _ = channel_close(&rx.rx);
                    LoopStep::KeepRunning(
                        LoopState { state, model: Ghost(m0.step(LoopEvent::Stop)) },
                    )
                },
                Ok(Some(CommandMessage::ForceStopActor)) => {
                    abandon_mailbox(rx);
                    LoopStep::Finished(Ok(()), Ghost(m0.step(LoopEvent::ForceStop)))
                },
                Ok(Some(CommandMessage::RestartActor)) => {
                    match actor.on_stop(state) {
                        Ok(()) => {},
                        Err(e) => {
                            abandon_mailbox(rx);
                            return LoopStep::Finished(
                                Err(ActorRuntimeError::Stop(e)),
                                Ghost(m0.step(LoopEvent::Restart { stop_ok: false, init_ok: false })),
                            );
                        },
                    }
                    match actor.init() {
                        Ok(fresh) => LoopStep::KeepRunning(
                            LoopState {
                                state: fresh,
                                model: Ghost(
                                    m0.step(LoopEvent::Restart { stop_ok: true, init_ok: true }),
                                ),
                            },
                        ),
                        Err(e) => {
                            abandon_mailbox(rx);
                            LoopStep::Finished(
                                Err(ActorRuntimeError::Init(e)),
                                Ghost(m0.step(LoopEvent::Restart { stop_ok: true, init_ok: false })),
                            )
                        },
                    }
                },
                Err(fatal) => {
                    abandon_mailbox(rx);
                    LoopStep::Finished(
                        Err(ActorRuntimeError::HandleError(fatal)),
                        Ghost(m0.step(LoopEvent::OnErrorFailed)),
                    )
                },
            }
        },
    }
}

} // verus!
