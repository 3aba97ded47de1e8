//! The FIFO queue of parked coroutines that every blocking primitive is built on.
use std::collections::VecDeque;
use vstd::prelude::*;

verus! {

/// Handle of a coroutine, issued and owned by the scheduler.
///
/// The queue never owns a coroutine: it only keeps the handle until the single
/// wake that hands it back to the scheduler.
#[derive(Clone, Copy, Debug, PartialEq, Eq, Structural)]
pub struct CoroutineId {
    pub id: u64,
}

/// The queue after the current coroutine, if there is one, has registered at its tail.
pub open spec fn parked(q: Seq<CoroutineId>, current: Option<CoroutineId>) -> Seq<CoroutineId> {
    match current {
        Some(c) => q.push(c),
        None => q,
    }
}

/// The coroutine released by one wake (the oldest registrant), and the queue left behind.
pub open spec fn woken(q: Seq<CoroutineId>) -> (Option<CoroutineId>, Seq<CoroutineId>) {
    if q.len() == 0 {
        (None, q)
    } else {
        (Some(q[0]), q.drop_first())
    }
}

/// An ordered queue of parked coroutines.
///
/// Exclusive access to the queue is given by the `&mut` borrow that every
/// mutation takes; push and wake are its only structural mutations.
pub struct WaitList {
    inner: VecDeque<CoroutineId>,
}

impl View for WaitList {
    type V = Seq<CoroutineId>;

    closed spec fn view(&self) -> Seq<CoroutineId> {
        self.inner@
    }
}

impl WaitList {
    /// An empty queue.
    pub fn new() -> (r: WaitList)
        ensures
            r@ == Seq::<CoroutineId>::empty(),
    {
        WaitList { inner: VecDeque::with_capacity(64) }
    }

    /// Registers the current coroutine at the tail of the queue.
    ///
    /// Without a current coroutine this does nothing. The queue does not suspend
    /// anything: the caller asks the scheduler to suspend the coroutine afterwards.
    pub fn push(&mut self, current: Option<CoroutineId>)
        ensures
            final(self)@ == parked(old(self)@, current),
    {
        match current {
            Some(c) => self.inner.push_back(c),
            None => {},
        }
    }

    /// Releases the oldest parked coroutine, which the caller must mark ready.
    ///
    /// On an empty queue this does nothing and returns `None`.
    pub fn wake(&mut self) -> (r: Option<CoroutineId>)
        ensures
            (r, final(self)@) == woken(old(self)@),
    {
        self.inner.pop_front()
    }

    /// The number of parked coroutines.
    pub fn len(&self) -> (r: usize)
        ensures
            r == self@.len(),
    {
        self.inner.len()
    }

    /// Whether no coroutine is parked.
    pub fn is_empty(&self) -> (r: bool)
        ensures
            r == (self@.len() == 0),
    {
        self.inner.len() == 0
    }
}

/// One thing that happens to a wait queue: a coroutine parks, or a wake comes.
pub enum WaitEvent {
    Park(CoroutineId),
    Wake,
}

/// The queue after each coroutine of `ids` has parked, in order.
pub open spec fn park_all(q: Seq<CoroutineId>, ids: Seq<CoroutineId>) -> Seq<CoroutineId>
    decreases ids.len(),
{
    if ids.len() == 0 {
        q
    } else {
        park_all(parked(q, Some(ids[0])), ids.drop_first())
    }
}

/// The coroutines that `n` successive wakes release from `q`, in release order.
pub open spec fn wake_n(q: Seq<CoroutineId>, n: nat) -> Seq<CoroutineId>
    decreases n,
{
    if n == 0 {
        Seq::empty()
    } else {
        match woken(q).0 {
            Some(c) => seq![c] + wake_n(woken(q).1, (n - 1) as nat),
            None => Seq::empty(),
        }
    }
}

/// The coroutines released, in release order, while `events` happen to `q`.
pub open spec fn released(q: Seq<CoroutineId>, events: Seq<WaitEvent>) -> Seq<CoroutineId>
    decreases events.len(),
{
    if events.len() == 0 {
        Seq::empty()
    } else {
        match events[0] {
            WaitEvent::Park(c) => released(parked(q, Some(c)), events.drop_first()),
            WaitEvent::Wake => match woken(q).0 {
                Some(c) => seq![c] + released(woken(q).1, events.drop_first()),
                None => released(q, events.drop_first()),
            },
        }
    }
}

/// The number of wakes among `events`.
pub open spec fn wake_count(events: Seq<WaitEvent>) -> nat
    decreases events.len(),
{
    if events.len() == 0 {
        0
    } else {
        (if events[0] is Wake { 1nat } else { 0nat }) + wake_count(events.drop_first())
    }
}

proof fn lemma_park_all_appends(q: Seq<CoroutineId>, ids: Seq<CoroutineId>)
    ensures
        park_all(q, ids) == q + ids,
    decreases ids.len(),
{
    if ids.len() > 0 {
        lemma_park_all_appends(q.push(ids[0]), ids.drop_first());
        assert(q.push(ids[0]) + ids.drop_first() =~= q + ids);
    } else {
        assert(q + ids =~= q);
    }
}

proof fn lemma_wake_n_takes(q: Seq<CoroutineId>, n: nat)
    requires
        n <= q.len(),
    ensures
        wake_n(q, n) == q.take(n as int),
    decreases n,
{
    if n > 0 {
        lemma_wake_n_takes(q.drop_first(), (n - 1) as nat);
        assert(seq![q[0]] + q.drop_first().take(n - 1) =~= q.take(n as int));
    } else {
        assert(q.take(0) =~= Seq::<CoroutineId>::empty());
    }
}

/// When coroutines park on an empty queue one after another and then as many wakes
/// follow, the wakes release them in exactly the order in which they parked.
pub proof fn lemma_fifo_release(ids: Seq<CoroutineId>)
    ensures
        wake_n(park_all(Seq::empty(), ids), ids.len()) == ids,
{
    lemma_park_all_appends(Seq::empty(), ids);
    assert(Seq::<CoroutineId>::empty() + ids =~= ids);
    lemma_wake_n_takes(ids, ids.len());
    assert(ids.take(ids.len() as int) =~= ids);
}

/// No parked coroutine is passed over: the coroutine at position `k` of the queue
/// is the one released by the `k + 1`-th wake that follows, whatever parks happen
/// in between. So as long as every release of a lock or every send wakes once,
/// each parked coroutine is eventually resumed.
pub proof fn lemma_no_lost_wakeup(q: Seq<CoroutineId>, events: Seq<WaitEvent>, k: int)
    requires
        0 <= k < q.len(),
        wake_count(events) > k,
    ensures
        released(q, events).len() > k,
        released(q, events)[k] == q[k],
    decreases events.len(),
{
    let rest = events.drop_first();
    match events[0] {
        WaitEvent::Park(c) => {
            lemma_no_lost_wakeup(q.push(c), rest, k);
        },
        WaitEvent::Wake => {
            if k > 0 {
                lemma_no_lost_wakeup(q.drop_first(), rest, k - 1);
            }
        },
    }
}

} // verus!
