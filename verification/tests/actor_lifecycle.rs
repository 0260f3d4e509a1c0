//! End-to-end scenarios: a counter actor driven through its full lifecycle —
//! FIFO processing, asks, stop, force-stop, restart, backpressure, and the
//! failure paths of dispatch and the hooks.

use std::sync::atomic::AtomicBool;
use std::sync::atomic::AtomicI64;
use std::sync::atomic::AtomicUsize;
use std::sync::atomic::Ordering;
use std::sync::Arc;
use std::time::Duration;

use ascolt::error::actor::ActorInitFailure;
use ascolt::error::actor::ActorRuntimeError;
use ascolt::error::actor::ActorStopFailure;
use ascolt::error::handler::AskError;
use ascolt::error::handler::AskHandlerError;
use ascolt::error::handler::BaseHandlerError;
use ascolt::error::handler::ReceiverHandlerError;
use ascolt::handler::ActorMessageHandlerTrait;
use ascolt::handler::AskHandlerTrait;
use ascolt::handler::BaseHandler;
use ascolt::handler::BaseHandlerTrait;
use ascolt::handler::TellHandlerTrait;
use ascolt::mailbox::reply_channel;
use ascolt::messaging::bounded_channel;
use ascolt::messaging::unbounded_channel;
use ascolt::messaging::AskMessage;
use ascolt::messaging::MessageRequest;
use ascolt::messaging::Receiver;
use ascolt::messaging::TellMessage;
use ascolt::supervision::actor_loop_turn;
use ascolt::supervision::start_actor_loop;
use ascolt::supervision::ActorTrait;
use ascolt::supervision::CommandMessage;
use ascolt::supervision::LoopStep;

// ---- the counter actor: integer state, order-sensitive updates ----

struct Add(i64);
struct Sub(i64);
struct Shift(i64);
struct Get;
struct FailGet;
struct FailTell;

enum CounterMsg {
    Add(TellMessage<Add>),
    Sub(TellMessage<Sub>),
    Shift(TellMessage<Shift>),
    Get(AskMessage<Get, i64>),
    FailGet(AskMessage<FailGet, i64>),
    FailTell(TellMessage<FailTell>),
}

impl MessageRequest<CounterMsg> for TellMessage<Add> {
    fn get_case(self) -> CounterMsg {
        CounterMsg::Add(self)
    }
}

impl MessageRequest<CounterMsg> for TellMessage<Sub> {
    fn get_case(self) -> CounterMsg {
        CounterMsg::Sub(self)
    }
}

impl MessageRequest<CounterMsg> for TellMessage<Shift> {
    fn get_case(self) -> CounterMsg {
        CounterMsg::Shift(self)
    }
}

impl MessageRequest<CounterMsg> for AskMessage<Get, i64> {
    fn get_case(self) -> CounterMsg {
        CounterMsg::Get(self)
    }
}

impl MessageRequest<CounterMsg> for AskMessage<FailGet, i64> {
    fn get_case(self) -> CounterMsg {
        CounterMsg::FailGet(self)
    }
}

impl MessageRequest<CounterMsg> for TellMessage<FailTell> {
    fn get_case(self) -> CounterMsg {
        CounterMsg::FailTell(self)
    }
}

#[derive(Clone, Copy, PartialEq, Eq)]
enum ErrorPolicy {
    StopByDefault,
    Ignore,
    Restart,
    FailInOnError,
}

#[derive(Clone)]
struct CounterActor {
    inits: Arc<AtomicUsize>,
    stops: Arc<AtomicUsize>,
    final_state: Arc<AtomicI64>,
    fail_init: bool,
    fail_stop: bool,
    policy: ErrorPolicy,
}

impl CounterActor {
    fn new() -> Self {
        CounterActor {
            inits: Arc::new(AtomicUsize::new(0)),
            stops: Arc::new(AtomicUsize::new(0)),
            final_state: Arc::new(AtomicI64::new(0)),
            fail_init: false,
            fail_stop: false,
            policy: ErrorPolicy::StopByDefault,
        }
    }
}

impl ActorTrait<i64, String> for CounterActor {
    fn init(&self) -> Result<i64, ActorInitFailure> {
        if self.fail_init {
            return Err(ActorInitFailure::new("init refused".to_string()));
        }
        self.inits.fetch_add(1, Ordering::SeqCst);
        Ok(0)
    }

    fn on_stop(&self, state: i64) -> Result<(), ActorStopFailure> {
        self.stops.fetch_add(1, Ordering::SeqCst);
        self.final_state.store(state, Ordering::SeqCst);
        if self.fail_stop {
            return Err(ActorStopFailure::new("stop refused".to_string()));
        }
        Ok(())
    }

    fn on_error(
        &self,
        _state: &mut i64,
        _error: BaseHandlerError<String>,
    ) -> Result<Option<CommandMessage>, ascolt::error::actor::ActorHandleErrorFailure> {
        match self.policy {
            ErrorPolicy::StopByDefault => Ok(Some(CommandMessage::StopActor)),
            ErrorPolicy::Ignore => Ok(None),
            ErrorPolicy::Restart => Ok(Some(CommandMessage::RestartActor)),
            ErrorPolicy::FailInOnError => Err(ascolt::error::actor::ActorHandleErrorFailure::new(
                "recovery refused".to_string(),
            )),
        }
    }
}

impl TellHandlerTrait<i64, Add, String> for CounterActor {
    fn handle(&self, state: &mut i64, msg: Add) -> Result<(), String> {
        *state += msg.0;
        Ok(())
    }
}

impl TellHandlerTrait<i64, Sub, String> for CounterActor {
    fn handle(&self, state: &mut i64, msg: Sub) -> Result<(), String> {
        *state -= msg.0;
        Ok(())
    }
}

impl TellHandlerTrait<i64, Shift, String> for CounterActor {
    fn handle(&self, state: &mut i64, msg: Shift) -> Result<(), String> {
        *state = *state * 10 + msg.0;
        Ok(())
    }
}

impl AskHandlerTrait<i64, Get, i64, String> for CounterActor {
    fn handle(&self, state: &mut i64, _msg: Get) -> Result<i64, String> {
        Ok(*state)
    }
}

impl AskHandlerTrait<i64, FailGet, i64, String> for CounterActor {
    fn handle(&self, state: &mut i64, _msg: FailGet) -> Result<i64, String> {
        *state += 1;
        Err("handler refused".to_string())
    }
}

impl TellHandlerTrait<i64, FailTell, String> for CounterActor {
    fn handle(&self, _state: &mut i64, _msg: FailTell) -> Result<(), String> {
        Err("tell refused".to_string())
    }
}

impl ActorMessageHandlerTrait<i64, CounterMsg, String> for CounterActor {
    fn __handle(&self, state: &mut i64, msg: CounterMsg) -> Result<(), BaseHandlerError<String>> {
        match msg {
            CounterMsg::Add(inner) => {
                BaseHandler::_handle(self, state, inner).map_err(BaseHandlerError::from)
            }
            CounterMsg::Sub(inner) => {
                BaseHandler::_handle(self, state, inner).map_err(BaseHandlerError::from)
            }
            CounterMsg::Shift(inner) => {
                BaseHandler::_handle(self, state, inner).map_err(BaseHandlerError::from)
            }
            CounterMsg::Get(inner) => {
                BaseHandler::_handle(self, state, inner).map_err(BaseHandlerError::from)
            }
            CounterMsg::FailGet(inner) => {
                BaseHandler::_handle(self, state, inner).map_err(BaseHandlerError::from)
            }
            CounterMsg::FailTell(inner) => {
                BaseHandler::_handle(self, state, inner).map_err(BaseHandlerError::from)
            }
        }
    }
}

// ---- driving the supervision loop ----

fn drive(actor: CounterActor, rx: Receiver<CounterMsg>) -> Result<(), ActorRuntimeError> {
    let mut step = start_actor_loop(&actor, &rx);
    loop {
        match step {
            LoopStep::KeepRunning(ls) => step = actor_loop_turn(&actor, &rx, ls),
            LoopStep::Finished(res, _) => return res,
        }
    }
}

fn rt() -> tokio::runtime::Runtime {
    tokio::runtime::Builder::new_multi_thread()
        .worker_threads(2)
        .enable_time()
        .build()
        .unwrap()
}

fn spawn_drive(
    rt: &tokio::runtime::Runtime,
    actor: CounterActor,
    rx: Receiver<CounterMsg>,
) -> tokio::task::JoinHandle<Result<(), ActorRuntimeError>> {
    let _guard = rt.enter();
    tokio::task::spawn_blocking(move || drive(actor, rx))
}

// ---- scenarios ----

#[test]
fn counter_tells_then_ask() {
    let rt = rt();
    let (sender, receiver) = unbounded_channel::<CounterMsg>();
    let actor = CounterActor::new();
    let handle = spawn_drive(&rt, actor, receiver);
    sender.tell(Add(7)).unwrap();
    sender.tell(Sub(3)).unwrap();
    let got: i64 = sender.ask(Get).unwrap();
    assert_eq!(got, 4);
    sender.command(CommandMessage::StopActor).unwrap();
    assert!(rt.block_on(handle).unwrap().is_ok());
}

#[test]
fn tells_processed_in_send_order() {
    // Folding v into s as s*10 + v distinguishes every ordering of the
    // sends: only FIFO processing of 1,2,3,4 yields 1234.
    let rt = rt();
    let (sender, receiver) = unbounded_channel::<CounterMsg>();
    let actor = CounterActor::new();
    let handle = spawn_drive(&rt, actor, receiver);
    for v in [1i64, 2, 3, 4] {
        sender.tell(Shift(v)).unwrap();
    }
    let got: i64 = sender.ask(Get).unwrap();
    assert_eq!(got, 1234);
    sender.command(CommandMessage::StopActor).unwrap();
    assert!(rt.block_on(handle).unwrap().is_ok());
}

#[test]
fn stop_drains_then_rejects_new_sends() {
    let rt = rt();
    let (sender, receiver) = unbounded_channel::<CounterMsg>();
    let actor = CounterActor::new();
    let stops = actor.stops.clone();
    let final_state = actor.final_state.clone();
    let handle = spawn_drive(&rt, actor, receiver);
    sender.tell(Add(2)).unwrap();
    sender.command(CommandMessage::StopActor).unwrap();
    assert!(rt.block_on(handle).unwrap().is_ok());
    // enqueued work was drained before on_stop, exactly one on_stop ran
    assert_eq!(final_state.load(Ordering::SeqCst), 2);
    assert_eq!(stops.load(Ordering::SeqCst), 1);
    // nothing sent afterwards succeeds
    assert!(sender.tell(Add(1)).is_err());
    assert!(matches!(sender.ask::<Get, i64>(Get), Err(AskError::ReceiverClosed(_))));
    assert!(sender.command(CommandMessage::StopActor).is_err());
}

#[test]
fn force_stop_skips_on_stop() {
    let rt = rt();
    let (sender, receiver) = unbounded_channel::<CounterMsg>();
    let actor = CounterActor::new();
    let stops = actor.stops.clone();
    let handle = spawn_drive(&rt, actor, receiver);
    sender.tell(Add(1)).unwrap();
    sender.command(CommandMessage::ForceStopActor).unwrap();
    assert!(rt.block_on(handle).unwrap().is_ok());
    assert_eq!(stops.load(Ordering::SeqCst), 0);
    assert!(sender.tell(Add(1)).is_err());
}

#[test]
fn mailbox_closed_runs_on_stop_once() {
    let rt = rt();
    let (sender, receiver) = unbounded_channel::<CounterMsg>();
    let actor = CounterActor::new();
    let stops = actor.stops.clone();
    let handle = spawn_drive(&rt, actor, receiver);
    sender.tell(Add(5)).unwrap();
    drop(sender);
    assert!(rt.block_on(handle).unwrap().is_ok());
    assert_eq!(stops.load(Ordering::SeqCst), 1);
}

#[test]
fn restart_yields_fresh_state() {
    let rt = rt();
    let (sender, receiver) = unbounded_channel::<CounterMsg>();
    let actor = CounterActor::new();
    let inits = actor.inits.clone();
    let stops = actor.stops.clone();
    let handle = spawn_drive(&rt, actor, receiver);
    sender.tell(Add(5)).unwrap();
    let before: i64 = sender.ask(Get).unwrap();
    assert_eq!(before, 5);
    sender.command(CommandMessage::RestartActor).unwrap();
    // same actor, same mailbox — but entirely fresh state
    let after: i64 = sender.ask(Get).unwrap();
    assert_eq!(after, 0);
    sender.command(CommandMessage::StopActor).unwrap();
    assert!(rt.block_on(handle).unwrap().is_ok());
    assert_eq!(inits.load(Ordering::SeqCst), 2);
    assert_eq!(stops.load(Ordering::SeqCst), 2);
}

#[test]
fn init_failure_is_fatal_and_drains_nothing() {
    let rt = rt();
    let (sender, receiver) = unbounded_channel::<CounterMsg>();
    let mut actor = CounterActor::new();
    actor.fail_init = true;
    let stops = actor.stops.clone();
    let handle = spawn_drive(&rt, actor, receiver);
    let res = rt.block_on(handle).unwrap();
    assert!(matches!(res, Err(ActorRuntimeError::Init(_))));
    assert_eq!(stops.load(Ordering::SeqCst), 0);
    assert!(sender.tell(Add(1)).is_err());
}

#[test]
fn stop_hook_failure_is_reported() {
    let rt = rt();
    let (sender, receiver) = unbounded_channel::<CounterMsg>();
    let mut actor = CounterActor::new();
    actor.fail_stop = true;
    let handle = spawn_drive(&rt, actor, receiver);
    sender.command(CommandMessage::StopActor).unwrap();
    let res = rt.block_on(handle).unwrap();
    assert!(matches!(res, Err(ActorRuntimeError::Stop(_))));
}

#[test]
fn dispatch_failure_stops_by_default() {
    let rt = rt();
    let (sender, receiver) = unbounded_channel::<CounterMsg>();
    let actor = CounterActor::new();
    let stops = actor.stops.clone();
    let handle = spawn_drive(&rt, actor, receiver);
    sender.tell(FailTell).unwrap();
    assert!(rt.block_on(handle).unwrap().is_ok());
    assert_eq!(stops.load(Ordering::SeqCst), 1);
    assert!(sender.tell(Add(1)).is_err());
}

#[test]
fn dispatch_failure_can_be_ignored() {
    let rt = rt();
    let (sender, receiver) = unbounded_channel::<CounterMsg>();
    let mut actor = CounterActor::new();
    actor.policy = ErrorPolicy::Ignore;
    let handle = spawn_drive(&rt, actor, receiver);
    sender.tell(Add(3)).unwrap();
    sender.tell(FailTell).unwrap();
    let got: i64 = sender.ask(Get).unwrap();
    assert_eq!(got, 3);
    sender.command(CommandMessage::StopActor).unwrap();
    assert!(rt.block_on(handle).unwrap().is_ok());
}

#[test]
fn dispatch_failure_can_restart() {
    let rt = rt();
    let (sender, receiver) = unbounded_channel::<CounterMsg>();
    let mut actor = CounterActor::new();
    actor.policy = ErrorPolicy::Restart;
    let inits = actor.inits.clone();
    let handle = spawn_drive(&rt, actor, receiver);
    sender.tell(Add(9)).unwrap();
    sender.tell(FailTell).unwrap();
    let got: i64 = sender.ask(Get).unwrap();
    assert_eq!(got, 0);
    sender.command(CommandMessage::StopActor).unwrap();
    assert!(rt.block_on(handle).unwrap().is_ok());
    assert_eq!(inits.load(Ordering::SeqCst), 2);
}

#[test]
fn on_error_failure_is_fatal() {
    let rt = rt();
    let (sender, receiver) = unbounded_channel::<CounterMsg>();
    let mut actor = CounterActor::new();
    actor.policy = ErrorPolicy::FailInOnError;
    let stops = actor.stops.clone();
    let handle = spawn_drive(&rt, actor, receiver);
    sender.tell(FailTell).unwrap();
    let res = rt.block_on(handle).unwrap();
    assert!(matches!(res, Err(ActorRuntimeError::HandleError(_))));
    assert_eq!(stops.load(Ordering::SeqCst), 0);
}

#[test]
fn ask_reports_handler_rejection() {
    let rt = rt();
    let (sender, receiver) = unbounded_channel::<CounterMsg>();
    let mut actor = CounterActor::new();
    actor.policy = ErrorPolicy::Ignore;
    let handle = spawn_drive(&rt, actor, receiver);
    let res: Result<i64, AskError> = sender.ask(FailGet);
    assert!(matches!(res, Err(AskError::ReceiverHandlerError(_))));
    sender.command(CommandMessage::StopActor).unwrap();
    assert!(rt.block_on(handle).unwrap().is_ok());
}

#[test]
fn ask_against_dead_mailbox_resolves_closed() {
    let (sender, receiver) = unbounded_channel::<CounterMsg>();
    drop(receiver);
    let res: Result<i64, AskError> = sender.ask(Get);
    assert!(matches!(res, Err(AskError::ReceiverClosed(_))));
}

#[test]
fn ask_abandoned_before_handler_resolves_closed() {
    // A force-stop is already queued ahead of the ask, so the loop
    // terminates and abandons the ask envelope before its handler ever
    // runs: the caller resolves to a closed-channel failure, no hang.
    let rt = rt();
    let (sender, receiver) = bounded_channel::<CounterMsg>(4);
    let actor = CounterActor::new();
    sender.command(CommandMessage::ForceStopActor).unwrap();
    let ask_sender = sender.clone();
    let asker = {
        let _guard = rt.enter();
        tokio::task::spawn_blocking(move || ask_sender.ask::<Get, i64>(Get))
    };
    rt.block_on(async { tokio::time::sleep(Duration::from_millis(200)).await });
    let handle = spawn_drive(&rt, actor, receiver);
    let res = rt.block_on(asker).unwrap();
    assert!(matches!(res, Err(AskError::ReceiverClosed(_))));
    assert!(rt.block_on(handle).unwrap().is_ok());
}

#[test]
fn double_failure_leaves_state_as_handler_left_it() {
    // Handler fails inside an ask while the asking side has already
    // abandoned its reply slot: dispatch reports the double-failure kind and
    // the state keeps the handler's mutation.
    let actor = CounterActor::new();
    let (tx, rx) = reply_channel::<Result<i64, ReceiverHandlerError>>();
    drop(rx);
    let mut state = 7i64;
    let r = BaseHandler::_handle(&actor, &mut state, AskMessage { request: FailGet, tx });
    assert_eq!(r, Err(AskHandlerError::SendError("handler refused".to_string())));
    assert_eq!(state, 8);
}

#[test]
fn undeliverable_answer_is_not_a_handler_fault() {
    let actor = CounterActor::new();
    let (tx, rx) = reply_channel::<Result<i64, ReceiverHandlerError>>();
    drop(rx);
    let mut state = 7i64;
    let r = BaseHandler::_handle(&actor, &mut state, AskMessage { request: Get, tx });
    assert_eq!(r, Err(AskHandlerError::SendOk));
    assert_eq!(state, 7);
}

#[test]
fn bounded_mailbox_applies_backpressure() {
    let rt = rt();
    let (sender, receiver) = bounded_channel::<CounterMsg>(1);
    let second_sender = sender.clone();
    let actor = CounterActor::new();
    sender.tell(Add(1)).unwrap(); // fills the single slot
    let started = Arc::new(AtomicBool::new(false));
    let done = Arc::new(AtomicBool::new(false));
    let started2 = started.clone();
    let done2 = done.clone();
    let blocked_teller = {
        let _guard = rt.enter();
        tokio::task::spawn_blocking(move || {
            started2.store(true, Ordering::SeqCst);
            second_sender.tell(Add(2)).unwrap();
            done2.store(true, Ordering::SeqCst);
        })
    };
    rt.block_on(async { tokio::time::sleep(Duration::from_millis(300)).await });
    assert!(started.load(Ordering::SeqCst));
    assert!(!done.load(Ordering::SeqCst)); // the second tell is suspended
    let handle = spawn_drive(&rt, actor, receiver); // consumer frees space
    rt.block_on(blocked_teller).unwrap();
    assert!(done.load(Ordering::SeqCst));
    let got: i64 = sender.ask(Get).unwrap();
    assert_eq!(got, 3);
    sender.command(CommandMessage::StopActor).unwrap();
    assert!(rt.block_on(handle).unwrap().is_ok());
}

#[test]
fn split_views_keep_mailbox_open() {
    let rt = rt();
    let (sender, receiver) = unbounded_channel::<CounterMsg>();
    let actor = CounterActor::new();
    let handle = spawn_drive(&rt, actor, receiver);
    let (message_sender, command_sender) = sender.split();
    // the full sender is gone; both views still reach the actor
    message_sender.tell(Add(4)).unwrap();
    let got: i64 = message_sender.ask(Get).unwrap();
    assert_eq!(got, 4);
    drop(message_sender);
    // the command view alone still keeps the mailbox open
    command_sender.command(CommandMessage::StopActor).unwrap();
    assert!(rt.block_on(handle).unwrap().is_ok());
}

#[test]
fn message_sender_view_works() {
    let rt = rt();
    let (sender, receiver) = unbounded_channel::<CounterMsg>();
    let actor = CounterActor::new();
    let stops = actor.stops.clone();
    let handle = spawn_drive(&rt, actor, receiver);
    let message_sender = sender.into_message_sender();
    message_sender.tell(Add(2)).unwrap();
    message_sender.tell_with_ttl(Add(3), Duration::from_secs(60)).unwrap();
    let got: i64 = message_sender.ask(Get).unwrap();
    assert_eq!(got, 5);
    drop(message_sender);
    assert!(rt.block_on(handle).unwrap().is_ok());
    assert_eq!(stops.load(Ordering::SeqCst), 1);
}

#[test]
fn tell_with_ttl_is_carried_and_dispatched() {
    let rt = rt();
    let (sender, receiver) = unbounded_channel::<CounterMsg>();
    let actor = CounterActor::new();
    let handle = spawn_drive(&rt, actor, receiver);
    sender.tell_with_ttl(Add(6), Duration::from_millis(1)).unwrap();
    let got: i64 = sender.ask(Get).unwrap();
    assert_eq!(got, 6);
    sender.command(CommandMessage::StopActor).unwrap();
    assert!(rt.block_on(handle).unwrap().is_ok());
}

#[test]
fn cloned_senders_share_the_mailbox() {
    let rt = rt();
    let (sender, receiver) = unbounded_channel::<CounterMsg>();
    let actor = CounterActor::new();
    let handle = spawn_drive(&rt, actor, receiver);
    let second = sender.clone();
    sender.tell(Add(1)).unwrap();
    second.tell(Add(2)).unwrap();
    let got: i64 = second.ask(Get).unwrap();
    assert_eq!(got, 3);
    drop(sender);
    second.command(CommandMessage::StopActor).unwrap();
    assert!(rt.block_on(handle).unwrap().is_ok());
}
