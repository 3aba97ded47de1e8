//! Multi-producer, single-consumer FIFO channel whose receiver parks while it is empty.
use crate::wait_list::{parked, woken, CoroutineId, WaitList};
use std::collections::VecDeque;
use vstd::prelude::*;

verus! {

/// Returned by `send` when the receiver is gone; it carries back the unsent value.
pub struct SendError<T>(pub T);

/// Returned by `recv` when the channel is empty and every sender is gone.
#[derive(Clone, Copy, Debug, PartialEq, Eq, Structural)]
pub struct RecvError;

/// Why `try_recv` returned no value.
#[derive(Clone, Copy, Debug, PartialEq, Eq, Structural)]
pub enum TryRecvError {
    /// Nothing is queued, but a sender may still send.
    Empty,
    /// Nothing is queued and every sender is gone.
    Disconnected,
}

/// The state that the handles of one channel share: the queued values, the number
/// of live senders, whether the receiver is alive, and the wait queue on which an
/// empty-handed receiver parks.
pub struct Channel<T> {
    queue: VecDeque<T>,
    senders: usize,
    receiver_alive: bool,
    wait_list: WaitList,
    id: Ghost<int>,
}

/// A sending handle. Handles are duplicated with `clone_handle`; the channel is
/// closed for the receiver once every handle has been closed.
pub struct Sender {
    chan_id: Ghost<int>,
}

/// The one receiving handle of a channel.
pub struct Receiver {
    chan_id: Ghost<int>,
}

impl<T> Channel<T> {
    /// The identity of this channel, which its handles carry.
    pub closed spec fn id(&self) -> int {
        self.id@
    }

    /// The queued values, oldest first.
    pub closed spec fn queued(&self) -> Seq<T> {
        self.queue@
    }

    /// The number of live sending handles.
    pub closed spec fn sender_count(&self) -> nat {
        self.senders as nat
    }

    /// Whether the receiving handle is alive.
    pub closed spec fn receiver_open(&self) -> bool {
        self.receiver_alive
    }

    /// The coroutines parked on the channel, oldest first.
    pub closed spec fn waiters(&self) -> Seq<CoroutineId> {
        self.wait_list@
    }

    /// The number of live sending handles.
    pub fn senders(&self) -> (r: usize)
        ensures
            r == self.sender_count(),
    {
        self.senders
    }

    /// The number of coroutines parked on the channel.
    pub fn waiting(&self) -> (r: usize)
        ensures
            r == self.waiters().len(),
    {
        self.wait_list.len()
    }

    /// The number of queued values.
    pub fn len(&self) -> (r: usize)
        ensures
            r == self.queued().len(),
    {
        self.queue.len()
    }
}

/// Creates a channel: its shared state, one sending handle and the receiving handle.
pub fn channel<T>() -> (r: (Sender, Receiver, Channel<T>))
    ensures
        r.0.chan_id() == r.2.id(),
        r.1.chan_id() == r.2.id(),
        r.2.queued() == Seq::<T>::empty(),
        r.2.sender_count() == 1,
        r.2.receiver_open(),
        r.2.waiters() == Seq::<CoroutineId>::empty(),
{
    let chan = Channel {
        queue: VecDeque::new(),
        senders: 1,
        receiver_alive: true,
        wait_list: WaitList::new(),
        id: Ghost(arbitrary()),
    };
    let id = Ghost(chan.id@);
    (Sender { chan_id: id }, Receiver { chan_id: id }, chan)
}

impl Sender {
    /// The identity of the channel this handle sends on.
    pub closed spec fn chan_id(&self) -> int {
        self.chan_id@
    }

    /// Sends `t`: queues it and wakes the oldest coroutine parked on the channel,
    /// which the caller must mark ready. When the receiver is gone the value comes
    /// back in the error and nothing changes.
    pub fn send<T>(&self, chan: &mut Channel<T>, t: T) -> (r: Result<Option<CoroutineId>, SendError<T>>)
        requires
            self.chan_id() == old(chan).id(),
        ensures
            final(chan).id() == old(chan).id(),
            r is Ok <==> old(chan).receiver_open(),
            final(chan).sender_count() == old(chan).sender_count(),
            final(chan).receiver_open() == old(chan).receiver_open(),
            match r {
                Ok(w) => {
                    &&& final(chan).queued() == old(chan).queued().push(t)
                    &&& (w, final(chan).waiters()) == woken(old(chan).waiters())
                },
                Err(e) => e.0 == t && *final(chan) == *old(chan),
            },
    {
        if chan.receiver_alive {
            chan.queue.push_back(t);
            Ok(chan.wait_list.wake())
        } else {
            Err(SendError(t))
        }
    }

    /// A further sending handle to the same channel.
    pub fn clone_handle<T>(&self, chan: &mut Channel<T>) -> (r: Sender)
        requires
            self.chan_id() == old(chan).id(),
            old(chan).sender_count() < usize::MAX,
        ensures
            r.chan_id() == self.chan_id(),
            final(chan).id() == old(chan).id(),
            final(chan).sender_count() == old(chan).sender_count() + 1,
            final(chan).queued() == old(chan).queued(),
            final(chan).receiver_open() == old(chan).receiver_open(),
            final(chan).waiters() == old(chan).waiters(),
    {
        chan.senders = chan.senders + 1;
        Sender { chan_id: Ghost(self.chan_id@) }
    }

    /// Gives this sending handle up.
    pub fn close<T>(self, chan: &mut Channel<T>)
        requires
            self.chan_id() == old(chan).id(),
            old(chan).sender_count() > 0,
        ensures
            final(chan).id() == old(chan).id(),
            final(chan).sender_count() == old(chan).sender_count() - 1,
            final(chan).queued() == old(chan).queued(),
            final(chan).receiver_open() == old(chan).receiver_open(),
            final(chan).waiters() == old(chan).waiters(),
    {
        chan.senders = chan.senders - 1;
    }
}

impl Receiver {
    /// The identity of the channel this handle receives from.
    pub closed spec fn chan_id(&self) -> int {
        self.chan_id@
    }

    /// Takes the oldest queued value without blocking.
    ///
    /// Queued values are handed out even after every sender is gone; only an empty
    /// channel reports `Empty`, or `Disconnected` when no sender is left.
    pub fn try_recv<T>(&self, chan: &mut Channel<T>) -> (r: Result<T, TryRecvError>)
        requires
            self.chan_id() == old(chan).id(),
        ensures
            final(chan).id() == old(chan).id(),
            final(chan).sender_count() == old(chan).sender_count(),
            final(chan).receiver_open() == old(chan).receiver_open(),
            final(chan).waiters() == old(chan).waiters(),
            r is Ok <==> old(chan).queued().len() > 0,
            match r {
                Ok(v) => {
                    &&& v == old(chan).queued()[0]
                    &&& final(chan).queued() == old(chan).queued().drop_first()
                },
                Err(e) => {
                    &&& final(chan).queued() == old(chan).queued()
                    &&& (e == TryRecvError::Disconnected <==> old(chan).sender_count() == 0)
                },
            },
    {
        match chan.queue.pop_front() {
            Some(v) => Ok(v),
            None => {
                if chan.senders == 0 {
                    Err(TryRecvError::Disconnected)
                } else {
                    Err(TryRecvError::Empty)
                }
            },
        }
    }

    /// One step of receiving for the `current` coroutine.
    ///
    /// `Ok(Some(v))` is the oldest queued value. `Err` comes when the channel is
    /// empty and every sender is gone; then nothing is parked. `Ok(None)` means the
    /// channel was empty: `current` has been registered on the wait queue and must
    /// be suspended, and once woken it calls `recv` again, since a wake is a hint
    /// and not a value.
    pub fn recv<T>(&self, chan: &mut Channel<T>, current: Option<CoroutineId>) -> (r: Result<Option<T>, RecvError>)
        requires
            self.chan_id() == old(chan).id(),
        ensures
            final(chan).id() == old(chan).id(),
            final(chan).sender_count() == old(chan).sender_count(),
            final(chan).receiver_open() == old(chan).receiver_open(),
            r is Err <==> (old(chan).queued().len() == 0 && old(chan).sender_count() == 0),
            match r {
                Ok(Some(v)) => {
                    &&& old(chan).queued().len() > 0
                    &&& v == old(chan).queued()[0]
                    &&& final(chan).queued() == old(chan).queued().drop_first()
                    &&& final(chan).waiters() == old(chan).waiters()
                },
                Ok(None) => {
                    &&& old(chan).queued().len() == 0
                    &&& final(chan).queued() == old(chan).queued()
                    &&& final(chan).waiters() == parked(old(chan).waiters(), current)
                },
                Err(_) => {
                    &&& final(chan).queued() == old(chan).queued()
                    &&& final(chan).waiters() == old(chan).waiters()
                },
            },
    {
        match self.try_recv(chan) {
            Ok(v) => Ok(Some(v)),
            Err(TryRecvError::Disconnected) => Err(RecvError),
            Err(TryRecvError::Empty) => {
                chan.wait_list.push(current);
                Ok(None)
            },
        }
    }

    /// Gives the receiving handle up: later sends fail and return their value.
    pub fn close<T>(self, chan: &mut Channel<T>)
        requires
            self.chan_id() == old(chan).id(),
        ensures
            final(chan).id() == old(chan).id(),
            !final(chan).receiver_open(),
            final(chan).sender_count() == old(chan).sender_count(),
            final(chan).queued() == old(chan).queued(),
            final(chan).waiters() == old(chan).waiters(),
    {
        chan.receiver_alive = false;
    }
}

/// The queue after each value of `vs` has been sent, in order.
pub open spec fn send_all<T>(q: Seq<T>, vs: Seq<T>) -> Seq<T>
    decreases vs.len(),
{
    if vs.len() == 0 {
        q
    } else {
        send_all(q.push(vs[0]), vs.drop_first())
    }
}

/// The values that `n` successive receives take from `q`, in the order received.
pub open spec fn receive_n<T>(q: Seq<T>, n: nat) -> Seq<T>
    decreases n,
{
    if n == 0 || q.len() == 0 {
        Seq::empty()
    } else {
        seq![q[0]] + receive_n(q.drop_first(), (n - 1) as nat)
    }
}

proof fn lemma_send_all_appends<T>(q: Seq<T>, vs: Seq<T>)
    ensures
        send_all(q, vs) == q + vs,
    decreases vs.len(),
{
    if vs.len() > 0 {
        lemma_send_all_appends(q.push(vs[0]), vs.drop_first());
        assert(q.push(vs[0]) + vs.drop_first() =~= q + vs);
    } else {
        assert(q + vs =~= q);
    }
}

proof fn lemma_receive_n_takes<T>(q: Seq<T>, n: nat)
    requires
        n <= q.len(),
    ensures
        receive_n(q, n) == q.take(n as int),
    decreases n,
{
    if n > 0 {
        lemma_receive_n_takes(q.drop_first(), (n - 1) as nat);
        assert(seq![q[0]] + q.drop_first().take(n - 1) =~= q.take(n as int));
    } else {
        assert(q.take(0) =~= Seq::<T>::empty());
    }
}

/// Values sent on an empty channel are received in the order they were sent.
pub proof fn lemma_send_order<T>(vs: Seq<T>)
    ensures
        receive_n(send_all(Seq::empty(), vs), vs.len()) == vs,
{
    lemma_send_all_appends(Seq::empty(), vs);
    assert(Seq::<T>::empty() + vs =~= vs);
    lemma_receive_n_takes(vs, vs.len());
    assert(vs.take(vs.len() as int) =~= vs);
}

/// Several handles each sending one distinct value: whatever order the sends take
/// (`vs` lists the values in that order; `send` does not depend on the handle),
/// the receiver gets every value exactly once, none lost and none duplicated.
pub proof fn lemma_no_loss<T>(vs: Seq<T>)
    requires
        vs.no_duplicates(),
    ensures
        receive_n(send_all(Seq::empty(), vs), vs.len()).to_multiset() == vs.to_multiset(),
        receive_n(send_all(Seq::empty(), vs), vs.len()).no_duplicates(),
        forall|v: T|
            receive_n(send_all(Seq::empty(), vs), vs.len()).contains(v) <==> vs.contains(v),
{
    lemma_send_order(vs);
}

} // verus!
