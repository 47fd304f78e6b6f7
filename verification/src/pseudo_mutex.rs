use vstd::prelude::*;

use crate::wakers::{dequeue, opt_seq, WakeState, WakerStack};

verus! {

/// Capacity of the waiting queue of a mutex made by `PseudoMutex::new`.
pub const DEFAULT_QUEUE_CAPACITY: usize = 8;

/// A mutex that keeps the wakers of the tasks waiting for it in a queue. A waker joins at the
/// front of the queue; a release removes the front waker and wakes the one behind it.
///
/// A waker is named by an integer. The mutex records the wakers it wakes, and the runtime takes
/// them with `take_woken`.
pub struct PseudoMutex<T> {
    state: WakeState,
    task_queue: WakerStack,
    woken: Vec<u64>,
    data: T,
}

/// Future of a `PseudoMutex::lock`: queues its waker on the first poll, then tries the lock.
pub struct FutureLock<'a, T> {
    source: &'a mut PseudoMutex<T>,
    context_in_mtx: bool,
}

/// Access to the data of a locked `PseudoMutex`; dropping it releases the mutex.
pub struct PseudoGuard<'a, T> {
    lock: &'a mut PseudoMutex<T>,
}

/// Outcome of polling a `FutureLock`.
pub enum PseudoPoll<'a, T> {
    /// The lock was taken.
    Ready(PseudoGuard<'a, T>),
    /// The lock was not taken: the future, to poll again once its waker has been woken.
    Pending(FutureLock<'a, T>),
}

/// The waker that `queue_waker` wakes when `wk` joins `queue`: `wk` itself when it is alone.
pub open spec fn enqueue_wake(queue: Seq<u64>, wk: u64) -> Option<u64> {
    if queue.len() == 0 {
        Some(wk)
    } else {
        None
    }
}

/// A waker that joins the queue is woken at once exactly when the queue was empty: it is then
/// alone and its task may take the mutex. Behind any waker, however many, it waits.
pub proof fn lemma_enqueue_wakes_only_a_lone_waker(queue: Seq<u64>, wk: u64)
    ensures
        queue.len() == 0 ==> opt_seq(enqueue_wake(queue, wk)) == seq![wk],
        queue.len() > 0 ==> opt_seq(enqueue_wake(queue, wk)) == Seq::<u64>::empty(),
{
}

/// The waker that `release` wakes: none when the mutex is not locked, else the front of the
/// queue once its former front has left.
pub open spec fn release_wake(locked: bool, queue: Seq<u64>) -> Option<u64> {
    if !locked {
        None
    } else if dequeue(queue).len() > 0 {
        Some(dequeue(queue)[0])
    } else {
        None
    }
}

/// A release hands the mutex on: on a held mutex it wakes the waker second in the queue (the
/// front one leaves), and no one when at most one waker is queued; on a free mutex it wakes no
/// one. The queue loses exactly its front waker.
pub proof fn lemma_release_hands_on(locked: bool, queue: Seq<u64>)
    ensures
        !locked ==> opt_seq(release_wake(locked, queue)) == Seq::<u64>::empty(),
        locked && queue.len() >= 2 ==> opt_seq(release_wake(locked, queue)) == seq![queue[1]],
        locked && queue.len() < 2 ==> opt_seq(release_wake(locked, queue)) == Seq::<u64>::empty(),
        queue.len() > 0 ==> dequeue(queue) == queue.subrange(1, queue.len() as int),
        queue.len() == 0 ==> dequeue(queue) == queue,
{
    if queue.len() >= 2 {
        assert(dequeue(queue)[0] == queue[1]);
    }
}

/// The queue after `k` releases.
pub open spec fn dequeue_n(queue: Seq<u64>, k: nat) -> Seq<u64>
    decreases k,
{
    if k == 0 {
        queue
    } else {
        dequeue(dequeue_n(queue, (k - 1) as nat))
    }
}

/// Releases serve the queue from its front. With the wakers `queue` on a locked mutex, front
/// first, and each woken task taking the mutex before the next release (which leaves the queue
/// as it is), the queue after `k` releases is `queue` without its first `k` wakers, and release
/// number `k + 1` wakes `queue[k + 1]`, or no one once the queue runs out.
pub proof fn lemma_release_order(queue: Seq<u64>, k: nat)
    requires
        k < queue.len(),
    ensures
        dequeue_n(queue, k) == queue.skip(k as int),
        release_wake(true, dequeue_n(queue, k)) == if k + 1 < queue.len() {
            Some(queue[k as int + 1])
        } else {
            None
        },
    decreases k,
{
    if k > 0 {
        lemma_release_order(queue, (k - 1) as nat);
        assert(queue.skip(k - 1).drop_first() =~= queue.skip(k as int));
    }
    assert(dequeue(queue.skip(k as int)) =~= queue.skip(k as int + 1));
}

impl<T> PseudoMutex<T> {
    /// Whether the mutex is held.
    pub closed spec fn locked(&self) -> bool {
        self.state.is_locked()
    }

    /// The wakers in the queue, front first.
    pub closed spec fn queue(&self) -> Seq<u64> {
        self.task_queue.front_first()
    }

    /// The wakers woken and not yet taken by the runtime, oldest first.
    pub closed spec fn woken(&self) -> Seq<u64> {
        if self.state.wake_due() && self.queue().len() > 0 {
            self.woken@.push(self.queue()[0])
        } else {
            self.woken@
        }
    }

    /// The protected value.
    pub closed spec fn value(&self) -> T {
        self.data
    }

    /// An unlocked mutex holding `resource`, with room for `cap` wakers before its queue grows.
    pub fn new_with_capacity(resource: T, cap: usize) -> (m: PseudoMutex<T>)
        ensures
            !m.locked(),
            m.queue() == Seq::<u64>::empty(),
            m.woken() == Seq::<u64>::empty(),
            m.value() == resource,
    {
        let deq = WakerStack::with_capacity(cap);
        PseudoMutex::<T> { state: WakeState::new(), task_queue: deq, woken: Vec::new(), data: resource }
    }

    /// An unlocked mutex holding `resource`, with room for eight wakers.
    pub fn new(resource: T) -> (m: PseudoMutex<T>)
        ensures
            !m.locked(),
            m.queue() == Seq::<u64>::empty(),
            m.woken() == Seq::<u64>::empty(),
            m.value() == resource,
    {
        PseudoMutex::<T>::new_with_capacity(resource, DEFAULT_QUEUE_CAPACITY)
    }

    /// A future that takes the mutex once polled to completion.
    pub fn lock(&mut self) -> (f: FutureLock<'_, T>)
        ensures
            !f.registered(),
            *f.source() == *old(self),
            *final(f.source()) == *final(self),
    {
        FutureLock::new(self)
    }

    /// Writes a pending wake into the list of woken wakers.
    fn settle_wakes(&mut self)
        ensures
            final(self).woken() == old(self).woken(),
            final(self).queue() == old(self).queue(),
            final(self).locked() == old(self).locked(),
            final(self).value() == old(self).value(),
            !final(self).state.wake_due(),
    {
        if self.state.due() {
            match self.task_queue.front() {
                Some(f) => {
                    self.woken.push(f);
                },
                None => {},
            }
        }
        self.state.settle();
    }

    /// Pushes `wk` to the front of the queue; wakes `wk` when it is alone there, as its task
    /// may take the mutex at once.
    pub fn queue_waker(&mut self, wk: u64)
        ensures
            final(self).queue() == seq![wk] + old(self).queue(),
            final(self).woken() == old(self).woken() + opt_seq(enqueue_wake(old(self).queue(), wk)),
            old(self).queue().len() == 0 ==> final(self).woken() == old(self).woken().push(wk),
            old(self).queue().len() > 0 ==> final(self).woken() == old(self).woken(),
            final(self).locked() == old(self).locked(),
            final(self).value() == old(self).value(),
    {
        self.settle_wakes();
        let was_empty = self.task_queue.height() == 0;
        self.task_queue.push_front(wk);
        if was_empty {
            self.woken.push(wk);
        }
        proof {
            assert(self.woken() =~= old(self).woken() + opt_seq(enqueue_wake(old(self).queue(), wk)));
            lemma_enqueue_wakes_only_a_lone_waker(old(self).queue(), wk);
            assert(old(self).woken() + Seq::<u64>::empty() =~= old(self).woken());
            assert(old(self).woken() + seq![wk] =~= old(self).woken().push(wk));
        }
    }

    /// Unlocks the mutex and removes the front waker of the queue; wakes the new front waker.
    /// Does nothing on a mutex that is not locked.
    pub fn release(&mut self)
        ensures
            !old(self).locked() ==> *final(self) == *old(self),
            old(self).locked() ==> !final(self).locked() && final(self).queue() == dequeue(old(self).queue()),
            final(self).value() == old(self).value(),
            final(self).woken() == old(self).woken() + opt_seq(
                release_wake(old(self).locked(), old(self).queue()),
            ),
        opens_invariants none
        no_unwind
    {
        if self.state.release() {
            self.task_queue.pop_front();
        }
        proof {
            assert(self.woken() =~= old(self).woken() + opt_seq(
                release_wake(old(self).locked(), old(self).queue()),
            ));
        }
    }

    /// Hands the woken wakers to the runtime, oldest first, and forgets them.
    pub fn take_woken(&mut self) -> (ws: Vec<u64>)
        ensures
            ws@ == old(self).woken(),
            final(self).woken() == Seq::<u64>::empty(),
            final(self).queue() == old(self).queue(),
            final(self).locked() == old(self).locked(),
            final(self).value() == old(self).value(),
    {
        self.settle_wakes();
        let mut ws: Vec<u64> = Vec::new();
        std::mem::swap(&mut ws, &mut self.woken);
        ws
    }
}

impl<'a, T> FutureLock<'a, T> {
    /// The mutex this future locks.
    pub closed spec fn source(&self) -> &'a mut PseudoMutex<T> {
        self.source
    }

    /// Whether the waker of this future is in the queue of the mutex.
    pub closed spec fn registered(&self) -> bool {
        self.context_in_mtx
    }

    /// A future for `source` that has not queued its waker yet.
    fn new(source: &'a mut PseudoMutex<T>) -> (f: FutureLock<'a, T>)
        ensures
            !f.registered(),
            *f.source() == *old(source),
            *final(f.source()) == *final(source),
    {
        FutureLock { source: source, context_in_mtx: false }
    }

    /// Polls the future for the task whose waker is `waker`. The first poll pushes the waker
    /// to the front of the queue and is pending; later polls take the mutex if it is free.
    pub fn poll(self, waker: u64) -> (r: PseudoPoll<'a, T>)
        ensures
            match r {
                PseudoPoll::Ready(g) => {
                    &&& self.registered()
                    &&& !old(self.source()).locked()
                    &&& g.mutex().locked()
                    &&& g.mutex().queue() == old(self.source()).queue()
                    &&& g.mutex().woken() == old(self.source()).woken()
                    &&& g.mutex().value() == old(self.source()).value()
                    &&& *final(g.mutex()) == *final(self.source())
                },
                PseudoPoll::Pending(f) => {
                    &&& f.registered()
                    &&& *final(f.source()) == *final(self.source())
                    &&& !self.registered() ==> {
                        &&& f.source().queue() == seq![waker] + old(self.source()).queue()
                        &&& f.source().woken() == old(self.source()).woken() + opt_seq(
                            enqueue_wake(old(self.source()).queue(), waker),
                        )
                        &&& f.source().locked() == old(self.source()).locked()
                        &&& f.source().value() == old(self.source()).value()
                    }
                    &&& self.registered() ==> {
                        &&& old(self.source()).locked()
                        &&& *f.source() == *old(self.source())
                    }
                },
            },
    {
        let mut fut = self;
        if fut.context_in_mtx == false {
            fut.source.queue_waker(waker);
            fut.context_in_mtx = true;
            PseudoPoll::Pending(fut)
        } else {
            if !fut.source.state.locked() {
                fut.source.settle_wakes();
                fut.source.state.lock();
                PseudoPoll::Ready(PseudoGuard::new(fut.source))
            } else {
                PseudoPoll::Pending(fut)
            }
        }
    }
}

impl<'a, T> PseudoGuard<'a, T> {
    /// The mutex this guard holds.
    pub closed spec fn mutex(&self) -> &'a mut PseudoMutex<T> {
        self.lock
    }

    fn new(pseud: &'a mut PseudoMutex<T>) -> (g: PseudoGuard<'a, T>)
        ensures
            *g.mutex() == *old(pseud),
            *final(g.mutex()) == *final(pseud),
    {
        PseudoGuard { lock: pseud }
    }

    /// The protected value.
    pub fn deref(&self) -> (v: &T)
        ensures
            *v == self.mutex().value(),
    {
        &self.lock.data
    }

    /// The protected value, for writing.
    pub fn deref_mut(&mut self) -> (v: &mut T)
        ensures
            *v == old(self).mutex().value(),
            final(self).mutex().value() == *final(v),
            final(self).mutex().locked() == old(self).mutex().locked(),
            final(self).mutex().queue() == old(self).mutex().queue(),
            final(self).mutex().woken() == old(self).mutex().woken(),
            *final(final(self).mutex()) == *final(old(self).mutex()),
    {
        &mut self.lock.data
    }
}

impl<'a, T> Drop for PseudoGuard<'a, T> {
    /// Gives the mutex back: releases it, waking the next task in the queue.
    fn drop(&mut self)
        ensures
            old(self).mutex().locked() ==> !final(self).mutex().locked() && final(self).mutex().queue()
                == dequeue(old(self).mutex().queue()),
            !old(self).mutex().locked() ==> *final(self).mutex() == *old(self).mutex(),
            final(self).mutex().value() == old(self).mutex().value(),
            final(self).mutex().woken() == old(self).mutex().woken() + opt_seq(
                release_wake(old(self).mutex().locked(), old(self).mutex().queue()),
            ),
        opens_invariants none
        no_unwind
    {
        self.lock.release();
    }
}

} // verus!
