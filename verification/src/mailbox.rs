//! The mailbox channel: a FIFO queue of envelopes between many producer
//! handles and exactly one consumer, plus the single-use reply slots that
//! carry `ask` answers back.
//!
//! The queue itself is `async_channel`'s multi-producer channel and the
//! reply slots are `oneshot` cells; both are held in the opaque handle types
//! below and reached only through their trusted wrappers. [`MailboxModel`]
//! is the mathematical model of such a channel — a sequence of queued
//! messages, a closed flag and a count of live producer handles — and the
//! proofs at the end of this module state the ordering and lifetime laws of
//! the mailbox over that model.

use vstd::prelude::*;

verus! {

/// A producer handle on a mailbox channel; holds `async_channel`'s sender.
#[verifier::external_body]
#[verifier::reject_recursive_types(T)]
pub struct ChannelTx<T> {
    inner: async_channel::Sender<T>,
}

/// The consumer end of a mailbox channel; holds `async_channel`'s receiver.
#[verifier::external_body]
#[verifier::reject_recursive_types(T)]
pub struct ChannelRx<T> {
    inner: async_channel::Receiver<T>,
}

/// The write end of a single-use reply slot; holds `oneshot`'s sender,
/// which enforces at most one write by consuming itself.
#[verifier::external_body]
#[verifier::reject_recursive_types(T)]
pub struct ReplyTx<T> {
    inner: oneshot::Sender<T>,
}

/// The read end of a single-use reply slot; holds `oneshot`'s receiver.
#[verifier::external_body]
#[verifier::reject_recursive_types(T)]
pub struct ReplyRx<T> {
    inner: oneshot::Receiver<T>,
}

#[verifier::external_type_specification]
#[verifier::external_body]
pub struct ExInstant(std::time::Instant);

/// Relies on async_channel::bounded: a channel holding at most `cap` queued
/// messages; a send beyond that blocks until space frees or the channel
/// closes. async_channel::bounded panics when `cap` is zero, so that input
/// is excluded here.
#[verifier::external_body]
pub(crate) fn channel_bounded<T>(cap: usize) -> (ChannelTx<T>, ChannelRx<T>)
    requires
        cap >= 1,
{
    let (tx, rx) = async_channel::bounded(cap);
    (ChannelTx { inner: tx }, ChannelRx { inner: rx })
}

/// Relies on async_channel::unbounded: a channel whose sends never block on
/// capacity.
#[verifier::external_body]
pub(crate) fn channel_unbounded<T>() -> (ChannelTx<T>, ChannelRx<T>) {
    let (tx, rx) = async_channel::unbounded();
    (ChannelTx { inner: tx }, ChannelRx { inner: rx })
}

/// Relies on async_channel::Sender::send_blocking: enqueues the message,
/// blocking while the channel is full; fails exactly when the channel is
/// closed, and then hands the message back.
#[verifier::external_body]
pub(crate) fn channel_send<T>(tx: &ChannelTx<T>, msg: T) -> (r: Result<(), T>)
    ensures
        r matches Err(m) ==> m == msg,
{
    match tx.inner.send_blocking(msg) {
        Ok(()) => Ok(()),
        Err(e) => Err(e.0),
    }
}

/// Relies on async_channel::Receiver::recv_blocking: dequeues the next
/// message, blocking while the channel is open but empty; returns None
/// exactly when the channel is closed and every queued message has been
/// taken.
#[verifier::external_body]
pub(crate) fn channel_recv<T>(rx: &ChannelRx<T>) -> (r: Option<T>) {
    rx.inner.recv_blocking().ok()
}

/// Relies on async_channel::Receiver::close: closes the channel for new
/// sends; messages already queued can still be received. Returns true when
/// this call was the one that closed it.
#[verifier::external_body]
pub(crate) fn channel_close<T>(rx: &ChannelRx<T>) -> (r: bool) {
    rx.inner.close()
}

/// Relies on async_channel::Receiver::try_recv: takes the next queued
/// message without blocking; None when the channel is empty (or closed and
/// drained).
#[verifier::external_body]
pub(crate) fn channel_try_recv<T>(rx: &ChannelRx<T>) -> (r: Option<T>) {
    rx.inner.try_recv().ok()
}

/// Relies on async_channel::Receiver::len: how many messages are queued
/// right now; once the channel is closed no send can raise it.
#[verifier::external_body]
pub(crate) fn channel_len<T>(rx: &ChannelRx<T>) -> (r: usize) {
    rx.inner.len()
}

/// Relies on async_channel::Sender::clone: a new producer handle to the same
/// channel; the channel stays open for sends while any handle is live.
#[verifier::external_body]
pub(crate) fn channel_sender_clone<T>(tx: &ChannelTx<T>) -> (r: ChannelTx<T>) {
    ChannelTx { inner: tx.inner.clone() }
}

/// Relies on oneshot::channel: a fresh single-use reply slot, one writer and
/// one reader.
#[verifier::external_body]
pub fn reply_channel<T>() -> (ReplyTx<T>, ReplyRx<T>) {
    let (tx, rx) = oneshot::channel();
    (ReplyTx { inner: tx }, ReplyRx { inner: rx })
}

/// Relies on oneshot::Sender::send: stores the value in the slot, consuming
/// the writer so it can be used at most once; does not block; returns false
/// exactly when the reader was already dropped.
#[verifier::external_body]
pub fn reply_send<T>(tx: ReplyTx<T>, value: T) -> (r: bool) {
    tx.inner.send(value).is_ok()
}

/// Relies on oneshot::Receiver::recv: blocks until the writer either stores
/// a value or is dropped, so it always returns; None exactly when the writer
/// was dropped without writing.
#[verifier::external_body]
pub fn reply_recv<T>(rx: ReplyRx<T>) -> (r: Option<T>) {
    rx.inner.recv().ok()
}

/// Relies on std::time::Instant::now: the current instant, used only to
/// stamp envelopes with their enqueue time.
#[verifier::external_body]
pub(crate) fn clock_now() -> std::time::Instant {
    std::time::Instant::now()
}

/// The mathematical model of one mailbox channel: the queued messages in
/// order, whether the consumer has closed it for new sends, and how many
/// producer handles are live.
pub struct MailboxModel<T> {
    /// The queued messages, oldest first.
    pub queue: Seq<T>,
    /// True once the consumer end is closed or dropped: new sends fail,
    /// queued messages can still be taken.
    pub receiver_closed: bool,
    /// Live producer handles; the consumer sees the channel as ended once
    /// this reaches zero and the queue drains.
    pub senders: nat,
}

impl<T> MailboxModel<T> {
    /// A freshly created channel: empty, open, one producer handle.
    pub open spec fn new() -> Self {
        MailboxModel { queue: Seq::empty(), receiver_closed: false, senders: 1 }
    }

    /// Whether a send is accepted.
    pub open spec fn accepts_sends(self) -> bool {
        !self.receiver_closed
    }

    /// One send: accepted it appends, rejected it leaves the queue
    /// unchanged. The second component tells which happened.
    pub open spec fn try_enqueue(self, x: T) -> (Self, bool) {
        if self.receiver_closed {
            (self, false)
        } else {
            (MailboxModel { queue: self.queue.push(x), ..self }, true)
        }
    }

    /// A run of sends from one producer, in order.
    pub open spec fn enqueue_all(self, sent: Seq<T>) -> Self
        decreases sent.len(),
    {
        if sent.len() == 0 {
            self
        } else {
            self.try_enqueue(sent.first()).0.enqueue_all(sent.drop_first())
        }
    }

    /// The consumer takes the oldest message.
    pub open spec fn dequeue(self) -> Self
        recommends
            self.queue.len() > 0,
    {
        MailboxModel { queue: self.queue.drop_first(), ..self }
    }

    /// The oldest queued message.
    pub open spec fn front(self) -> T
        recommends
            self.queue.len() > 0,
    {
        self.queue.first()
    }

    /// The messages the consumer observes over `n` successive dequeues.
    pub open spec fn drain(self, n: int) -> Seq<T>
        decreases n,
    {
        if n <= 0 || self.queue.len() == 0 {
            Seq::empty()
        } else {
            seq![self.front()] + self.dequeue().drain(n - 1)
        }
    }

    /// The consumer closes the mailbox for new sends.
    pub open spec fn close_receiver(self) -> Self {
        MailboxModel { receiver_closed: true, ..self }
    }

    /// A producer handle is cloned.
    pub open spec fn clone_sender(self) -> Self
        recommends
            self.senders > 0,
    {
        MailboxModel { senders: self.senders + 1, ..self }
    }

    /// A producer handle is dropped.
    pub open spec fn drop_sender(self) -> Self
        recommends
            self.senders > 0,
    {
        MailboxModel { senders: (self.senders - 1) as nat, ..self }
    }

    /// A full sender is split: the one handle becomes a message view and a
    /// command view, both live.
    pub open spec fn split_sender(self) -> Self
        recommends
            self.senders > 0,
    {
        MailboxModel { senders: self.senders + 1, ..self }
    }

    /// Whether every producer handle is gone, which ends the channel once
    /// the queue drains.
    pub open spec fn producers_gone(self) -> bool {
        self.senders == 0
    }
}

/// Sends append in order: after a run of sends on an open mailbox the queue
/// is the old queue followed by exactly the sent messages.
pub proof fn lemma_sends_append_in_order<T>(m: MailboxModel<T>, sent: Seq<T>)
    requires
        m.accepts_sends(),
    ensures
        m.enqueue_all(sent).queue == m.queue + sent,
        m.enqueue_all(sent).receiver_closed == m.receiver_closed,
        m.enqueue_all(sent).senders == m.senders,
    decreases sent.len(),
{
    if sent.len() == 0 {
        assert(m.enqueue_all(sent).queue =~= m.queue + sent);
    } else {
        let m1 = m.try_enqueue(sent.first()).0;
        lemma_sends_append_in_order(m1, sent.drop_first());
        assert(m1.queue + sent.drop_first() =~= m.queue + sent);
    }
}

/// Dequeues observe the queue front-first: `n` successive dequeues yield
/// exactly the oldest `n` queued messages, in queue order.
pub proof fn lemma_drain_in_queue_order<T>(m: MailboxModel<T>, n: int)
    requires
        0 <= n <= m.queue.len(),
    ensures
        m.drain(n) == m.queue.take(n),
    decreases n,
{
    if n <= 0 || m.queue.len() == 0 {
        assert(m.drain(n) =~= m.queue.take(n));
    } else {
        lemma_drain_in_queue_order(m.dequeue(), n - 1);
        assert(seq![m.front()] + m.dequeue().queue.take(n - 1) =~= m.queue.take(n));
    }
}

/// FIFO delivery: for every sequence of sends from a single producer, the
/// consumer processes those messages in send order — the first `n` messages
/// it takes after the sends are exactly the first `n` of the old queue
/// followed by the sent messages.
pub proof fn lemma_mailbox_fifo<T>(m: MailboxModel<T>, sent: Seq<T>, n: int)
    requires
        m.accepts_sends(),
        0 <= n <= m.queue.len() + sent.len(),
    ensures
        m.enqueue_all(sent).drain(n) == (m.queue + sent).take(n),
{
    lemma_sends_append_in_order(m, sent);
    lemma_drain_in_queue_order(m.enqueue_all(sent), n);
}

/// Whether `c` is an interleaving of `a` and `b`: every message of both, in
/// an order that keeps each one's own order. This is what concurrent
/// producers can make the channel see: their sends interleave arbitrarily,
/// but each producer's stay in send order.
pub open spec fn is_interleaving<T>(a: Seq<T>, b: Seq<T>, c: Seq<T>) -> bool
    decreases c.len(),
{
    if c.len() == 0 {
        a.len() == 0 && b.len() == 0
    } else {
        ||| (a.len() > 0 && a.first() == c.first() && is_interleaving(
            a.drop_first(),
            b,
            c.drop_first(),
        ))
        ||| (b.len() > 0 && b.first() == c.first() && is_interleaving(
            a,
            b.drop_first(),
            c.drop_first(),
        ))
    }
}

/// Whether `a` occurs inside `c` in order (as a subsequence).
pub open spec fn occurs_in_order<T>(a: Seq<T>, c: Seq<T>) -> bool
    decreases c.len(),
{
    if a.len() == 0 {
        true
    } else if c.len() == 0 {
        false
    } else if a.first() == c.first() {
        occurs_in_order(a.drop_first(), c.drop_first())
    } else {
        occurs_in_order(a, c.drop_first())
    }
}

/// Shortening the pattern preserves occurrence.
proof fn lemma_occurs_drop_pattern<T>(a: Seq<T>, c: Seq<T>)
    requires
        a.len() > 0,
        occurs_in_order(a, c),
    ensures
        occurs_in_order(a.drop_first(), c),
    decreases c.len(),
{
    if c.len() == 0 {
    } else if a.first() == c.first() {
        if a.drop_first().len() > 0 && a.drop_first().first() == c.first() {
            lemma_occurs_drop_pattern(a.drop_first(), c.drop_first());
        }
    } else {
        lemma_occurs_drop_pattern(a, c.drop_first());
        if a.drop_first().len() > 0 && a.drop_first().first() == c.first() {
            lemma_occurs_drop_pattern(a.drop_first(), c.drop_first());
        }
    }
}

/// Occurrence in a text is kept when one message is prepended to it.
proof fn lemma_occurs_prepend<T>(a: Seq<T>, c: Seq<T>, x: T)
    requires
        occurs_in_order(a, c),
    ensures
        occurs_in_order(a, seq![x] + c),
{
    let cx = seq![x] + c;
    assert(cx.drop_first() =~= c);
    if a.len() > 0 && a.first() == x {
        lemma_occurs_drop_pattern(a, c);
    }
}

/// An interleaving keeps each producer's messages in their own order.
proof fn lemma_interleaving_keeps_each_order<T>(a: Seq<T>, b: Seq<T>, c: Seq<T>)
    requires
        is_interleaving(a, b, c),
    ensures
        occurs_in_order(a, c),
        occurs_in_order(b, c),
    decreases c.len(),
{
    if c.len() == 0 {
    } else if a.len() > 0 && a.first() == c.first() && is_interleaving(
        a.drop_first(),
        b,
        c.drop_first(),
    ) {
        lemma_interleaving_keeps_each_order(a.drop_first(), b, c.drop_first());
        lemma_occurs_prepend(b, c.drop_first(), c.first());
        assert(seq![c.first()] + c.drop_first() =~= c);
    } else {
        lemma_interleaving_keeps_each_order(a, b.drop_first(), c.drop_first());
        lemma_occurs_prepend(a, c.drop_first(), c.first());
        assert(seq![c.first()] + c.drop_first() =~= c);
    }
}

/// FIFO under concurrency: when two producers' sends interleave arbitrarily
/// on an empty open mailbox, the consumer still observes each producer's
/// messages in that producer's own send order.
pub proof fn lemma_fifo_per_sender_under_interleaving<T>(
    m: MailboxModel<T>,
    a: Seq<T>,
    b: Seq<T>,
    c: Seq<T>,
)
    requires
        m.accepts_sends(),
        m.queue.len() == 0,
        is_interleaving(a, b, c),
    ensures
        occurs_in_order(a, m.enqueue_all(c).drain(c.len() as int)),
        occurs_in_order(b, m.enqueue_all(c).drain(c.len() as int)),
{
    lemma_mailbox_fifo(m, c, c.len() as int);
    assert((m.queue + c).take(c.len() as int) =~= c);
    lemma_interleaving_keeps_each_order(a, b, c);
}

/// A closed mailbox rejects every send and is left unchanged by it.
pub proof fn lemma_closed_mailbox_rejects_sends<T>(m: MailboxModel<T>, x: T)
    requires
        m.receiver_closed,
    ensures
        !m.try_enqueue(x).1,
        m.try_enqueue(x).0 == m,
{
}

/// Closing the mailbox is permanent for producers: no later send, dequeue or
/// handle operation reopens it.
pub proof fn lemma_closed_stays_closed<T>(m: MailboxModel<T>, x: T)
    requires
        m.receiver_closed,
    ensures
        m.try_enqueue(x).0.receiver_closed,
        m.queue.len() > 0 ==> m.dequeue().receiver_closed,
        m.clone_sender().receiver_closed,
        m.senders > 0 ==> m.drop_sender().receiver_closed,
{
}

/// Splitting a full sender into a message view and a command view, then
/// dropping either one of the two (in particular all that remains of the
/// original full sender), leaves a live producer handle: the mailbox does
/// not end while a split view remains.
pub proof fn lemma_split_keeps_mailbox_open<T>(m: MailboxModel<T>)
    requires
        m.senders >= 1,
    ensures
        !m.split_sender().producers_gone(),
        !m.split_sender().drop_sender().producers_gone(),
{
}

} // verus!
