//! Mutual exclusion over an owned value, with cooperative blocking.
use crate::wait_list::{parked, woken, CoroutineId, WaitList};
use vstd::prelude::*;

verus! {

/// How many immediate attempts `lock` makes before the caller parks.
pub const SPIN_COUNT: usize = 32;

/// The result of `try_lock`: on contention an error that carries no access to the value.
pub type TryLockResult<G> = Result<G, PoisonError<()>>;

/// A mutual exclusion primitive protecting a value of type `T`.
///
/// While the mutex is unlocked it holds the value; a successful acquisition moves
/// the value into the one `Guard`, and `unlock` moves it back. The lock flag is
/// the single source of truth for whether the mutex is held; the wait queue only
/// records which coroutines gave up and wait for a release.
pub struct Mutex<T> {
    data: Option<T>,
    locked: bool,
    wait_list: WaitList,
    id: Ghost<int>,
}

/// Exclusive access to the value of a held mutex.
///
/// Only `Mutex::lock` and `Mutex::try_lock` create one; `Mutex::unlock` of the
/// mutex it came from consumes it.
pub struct Guard<T> {
    value: T,
    mutex_id: Ghost<int>,
}

/// One step of the acquisition loop of `Mutex::lock`.
pub enum LockStep<T> {
    /// The lock was taken.
    Acquired(Guard<T>),
    /// The attempt failed and the spin budget is not spent: attempt again.
    Spin,
    /// The spin budget is spent: the current coroutine has been registered on the
    /// wait queue and must now be suspended; once woken, it starts over at attempt 0.
    Park,
}

impl<T> View for Guard<T> {
    type V = T;

    closed spec fn view(&self) -> T {
        self.value
    }
}

impl<T> Guard<T> {
    /// The identity of the mutex that handed out this guard.
    pub closed spec fn mutex_id(&self) -> int {
        self.mutex_id@
    }

    /// Shared access to the protected value.
    pub fn deref(&self) -> (r: &T)
        ensures
            *r == self@,
    {
        &self.value
    }

    /// Mutable access to the protected value.
    pub fn deref_mut(&mut self) -> (r: &mut T)
        ensures
            *r == old(self)@,
            final(self)@ == *final(r),
    {
        &mut self.value
    }
}

impl<T> Mutex<T> {
    /// The identity of this mutex, which its guards carry.
    pub closed spec fn id(&self) -> int {
        self.id@
    }

    /// Whether the lock flag is set.
    pub closed spec fn is_locked(&self) -> bool {
        self.locked
    }

    /// The coroutines parked on this mutex, oldest first.
    pub closed spec fn waiters(&self) -> Seq<CoroutineId> {
        self.wait_list@
    }

    /// The protected value while the mutex is unlocked; `None` while a guard holds it.
    pub closed spec fn value(&self) -> Option<T> {
        self.data
    }

    /// The value sits in the mutex exactly when the lock flag is clear.
    pub open spec fn wf(&self) -> bool {
        self.is_locked() <==> self.value().is_none()
    }

    /// Creates a new mutex in an unlocked state.
    pub fn new(data: T) -> (r: Mutex<T>)
        ensures
            r.wf(),
            !r.is_locked(),
            r.value() == Some(data),
            r.waiters() == Seq::<CoroutineId>::empty(),
    {
        Mutex { data: Some(data), locked: false, wait_list: WaitList::new(), id: Ghost(arbitrary()) }
    }

    /// Whether the mutex is held.
    pub fn locked(&self) -> (r: bool)
        ensures
            r == self.is_locked(),
    {
        self.locked
    }

    /// The number of coroutines parked on the mutex.
    pub fn waiting(&self) -> (r: usize)
        ensures
            r == self.waiters().len(),
    {
        self.wait_list.len()
    }

    /// A single attempt at the lock flag: sets it and takes the value if it was clear.
    fn acquire(&mut self) -> (r: Option<Guard<T>>)
        requires
            old(self).wf(),
        ensures
            final(self).wf(),
            final(self).waiters() == old(self).waiters(),
            r is Some <==> !old(self).is_locked(),
            match r {
                Some(g) => {
                    &&& final(self).is_locked()
                    &&& old(self).value() == Some(g@)
                    &&& g.mutex_id() == old(self).id()
                    &&& final(self).id() == old(self).id()
                },
                None => *final(self) == *old(self),
            },
    {
        if self.locked {
            None
        } else {
            match self.data.take() {
                Some(v) => {
                    self.locked = true;
                    Some(Guard { value: v, mutex_id: Ghost(self.id@) })
                },
                None => None,
            }
        }
    }

    /// Attempts to take the lock once, never parking and never retrying.
    ///
    /// On contention the mutex is left as it was and the error grants no access.
    pub fn try_lock(&mut self) -> (r: TryLockResult<Guard<T>>)
        requires
            old(self).wf(),
        ensures
            final(self).wf(),
            final(self).waiters() == old(self).waiters(),
            r is Ok <==> !old(self).is_locked(),
            match r {
                Ok(g) => {
                    &&& final(self).is_locked()
                    &&& old(self).value() == Some(g@)
                    &&& g.mutex_id() == old(self).id()
                    &&& final(self).id() == old(self).id()
                },
                Err(e) => *final(self) == *old(self),
            },
    {
        match self.acquire() {
            Some(g) => Ok(g),
            None => Err(PoisonError::new(())),
        }
    }

    /// One step of acquiring the mutex for the `current` coroutine.
    ///
    /// `attempt` counts the failed attempts since the caller started or was last
    /// woken. A free mutex is taken. A held one gives `Spin` while fewer than
    /// `SPIN_COUNT` attempts have been made; the last attempt of the budget
    /// registers `current` on the wait queue and gives `Park`. A wake is no lock
    /// grant: a woken coroutine competes for the flag again.
    pub fn lock(&mut self, current: Option<CoroutineId>, attempt: usize) -> (r: LockStep<T>)
        requires
            old(self).wf(),
        ensures
            final(self).wf(),
            r is Acquired <==> !old(self).is_locked(),
            match r {
                LockStep::Acquired(g) => {
                    &&& final(self).is_locked()
                    &&& old(self).value() == Some(g@)
                    &&& g.mutex_id() == old(self).id()
                    &&& final(self).id() == old(self).id()
                    &&& final(self).waiters() == old(self).waiters()
                },
                LockStep::Spin => attempt + 1 < SPIN_COUNT && *final(self) == *old(self),
                LockStep::Park => {
                    &&& attempt + 1 >= SPIN_COUNT
                    &&& final(self).id() == old(self).id()
                    &&& final(self).is_locked()
                    &&& final(self).value() == old(self).value()
                    &&& final(self).waiters() == parked(old(self).waiters(), current)
                },
            },
    {
        match self.acquire() {
            Some(g) => LockStep::Acquired(g),
            None => {
                if attempt < SPIN_COUNT - 1 {
                    LockStep::Spin
                } else {
                    self.wait_list.push(current);
                    LockStep::Park
                }
            },
        }
    }

    /// Releases the mutex held through `guard`, which must have come from this
    /// mutex: puts the value back, clears the lock flag and wakes the oldest parked
    /// coroutine, which the caller must mark ready.
    pub fn unlock(&mut self, guard: Guard<T>) -> (r: Option<CoroutineId>)
        requires
            old(self).wf(),
            old(self).is_locked(),
            guard.mutex_id() == old(self).id(),
        ensures
            final(self).wf(),
            final(self).id() == old(self).id(),
            !final(self).is_locked(),
            final(self).value() == Some(guard@),
            (r, final(self).waiters()) == woken(old(self).waiters()),
    {
        self.data = Some(guard.value);
        self.locked = false;
        self.wait_list.wake()
    }
}

/// An error that wraps a value, returned where a lock cannot be handed out.
///
/// No notion of a holder that failed exists here: the error only says that the
/// lock is held by someone else.
pub struct PoisonError<T> {
    guard: T,
}

impl<T> View for PoisonError<T> {
    type V = T;

    closed spec fn view(&self) -> T {
        self.guard
    }
}

impl<T> PoisonError<T> {
    /// Wraps `guard`.
    pub fn new(guard: T) -> (r: PoisonError<T>)
        ensures
            r@ == guard,
    {
        PoisonError { guard: guard }
    }

    /// The wrapped value.
    pub fn into_inner(self) -> (r: T)
        ensures
            r == self@,
    {
        self.guard
    }

    /// A reference to the wrapped value.
    pub fn get_ref(&self) -> (r: &T)
        ensures
            *r == self@,
    {
        &self.guard
    }

    /// A mutable reference to the wrapped value.
    pub fn get_mut(&mut self) -> (r: &mut T)
        ensures
            *r == old(self)@,
            final(self)@ == *final(r),
    {
        &mut self.guard
    }
}

/// One thing a coroutine does to a mutex that guards a counter.
pub enum CounterEvent {
    /// The coroutine makes one acquisition attempt (`lock` or `try_lock`).
    Attempt(CoroutineId),
    /// The coroutine adds one to the value through its guard and unlocks with it.
    Release(CoroutineId),
}

/// What a run of `CounterEvent`s has made of a counter mutex: its lock flag, the
/// coroutines that hold a guard, the counter, and the critical sections completed.
pub struct CounterRun {
    pub locked: bool,
    pub holders: Set<CoroutineId>,
    pub value: int,
    pub sections: nat,
}

/// One event, with the outcome that the contracts of `lock`, `try_lock` and
/// `unlock` give it: an attempt succeeds exactly when the flag is clear and sets
/// it; a release is made with a guard of this mutex, so only by a holder.
pub open spec fn counter_step(s: CounterRun, e: CounterEvent) -> CounterRun {
    match e {
        CounterEvent::Attempt(c) => if !s.locked {
            CounterRun { locked: true, holders: s.holders.insert(c), ..s }
        } else {
            s
        },
        CounterEvent::Release(c) => if s.holders.contains(c) {
            CounterRun {
                locked: false,
                holders: s.holders.remove(c),
                value: s.value + 1,
                sections: s.sections + 1,
            }
        } else {
            s
        },
    }
}

/// The state after `events`, in order, starting from `s`.
pub open spec fn counter_run(s: CounterRun, events: Seq<CounterEvent>) -> CounterRun
    decreases events.len(),
{
    if events.len() == 0 {
        s
    } else {
        counter_run(counter_step(s, events[0]), events.drop_first())
    }
}

/// A fresh counter mutex holding `v0`.
pub open spec fn counter_start(v0: int) -> CounterRun {
    CounterRun { locked: false, holders: Set::empty(), value: v0, sections: 0 }
}

/// At most one holder; the flag is set exactly while there is one; no increment lost.
pub open spec fn counter_ok(s: CounterRun, v0: int) -> bool {
    &&& s.holders.finite()
    &&& s.holders.len() <= 1
    &&& (s.locked <==> s.holders.len() == 1)
    &&& s.value == v0 + s.sections
}

proof fn lemma_counter_run_ok(s: CounterRun, events: Seq<CounterEvent>, v0: int)
    requires
        counter_ok(s, v0),
    ensures
        counter_ok(counter_run(s, events), v0),
    decreases events.len(),
{
    if events.len() > 0 {
        let t = counter_step(s, events[0]);
        match events[0] {
            CounterEvent::Attempt(c) => {
                if !s.locked {
                    vstd::set_lib::lemma_set_empty_equivalency_len(s.holders);
                    assert(t.holders.len() == 1);
                }
            },
            CounterEvent::Release(c) => {},
        }
        lemma_counter_run_ok(t, events.drop_first(), v0);
    }
}

/// Mutual exclusion on a mutex that guards a counter: whatever the interleaving
/// of attempts and releases by any number of coroutines, after every prefix of the
/// run at most one coroutine holds a guard, the lock flag is set exactly while one
/// does, and the counter equals its start value plus the number of completed
/// critical sections. So `C` coroutines completing `K` increments each leave
/// `v0 + C * K`.
pub proof fn lemma_counter_exclusive(v0: int, events: Seq<CounterEvent>)
    ensures
        forall|i: int|
            0 <= i <= events.len() ==> counter_ok(
                #[trigger] counter_run(counter_start(v0), events.take(i)),
                v0,
            ),
{
    assert forall|i: int| 0 <= i <= events.len() implies counter_ok(
        #[trigger] counter_run(counter_start(v0), events.take(i)),
        v0,
    ) by {
        lemma_counter_run_ok(counter_start(v0), events.take(i), v0);
    }
}

} // verus!
