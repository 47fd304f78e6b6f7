use vstd::prelude::*;

use vstd::string::StringExecFns;

use crate::wakers::{dequeue, first_of, min_nat, WakerTable};

verus! {

/// Capacity of the waiting queue of a mutex made with a requested capacity of zero.
pub const DEFAULT_SIZE: usize = 8;

/// Number of attempts that a task waiting for a mutex spends yielding before it sleeps.
pub const DEFAULT_YIELD: usize = 32;

/// Microseconds that `sync_lock` stands for between two attempts once yielding is over.
pub const DEFAULT_DURATION: u64 = 10;

/// A mutex: a lock flag, the value it protects, the wakers of the tasks waiting for it (front
/// first), and the wakers it has woken that the runtime has not taken yet.
///
/// A waker is named by an integer; the runtime takes the woken ones with `take_woken`.
pub struct Mutex<T> {
    is_locked: bool,
    wakers: WakerTable,
    data: T,
}

/// Error of a lock attempt, counting the tasks that wait in front.
pub struct LockError {
    n_tasks: usize,
}

/// Future of `Mutex::lock`: each poll tries the lock once, and a failed try leaves the
/// polling task's waker in the waiting queue.
pub struct FutureLock<'a, T> {
    source: &'a mut Mutex<T>,
    wk_key: usize,
}

/// Access to the data of a locked `Mutex`; dropping it releases the mutex.
pub struct LockGuard<'a, T> {
    lock: &'a mut Mutex<T>,
}

/// Outcome of polling a `FutureLock`.
pub enum LockPoll<'a, T> {
    /// The lock was taken.
    Ready(LockGuard<'a, T>),
    /// The lock is held: the future, to poll again.
    Pending(FutureLock<'a, T>),
}

/// What a task waiting for a held mutex does before its next attempt.
#[derive(Clone, Copy, Debug, PartialEq, Eq, Structural)]
pub enum WaitStep {
    /// Give the processor to another thread.
    Yield,
    /// Sleep for the given number of microseconds.
    Sleep(u64),
}

/// The capacity of the waiting queue of a mutex asked for `len` wakers.
pub open spec fn queue_capacity(len: usize) -> usize {
    if len > 0 {
        len
    } else {
        DEFAULT_SIZE
    }
}

/// The step a task takes after `attempt` failed attempts, and how many attempts it then counts.
pub open spec fn wait_policy(attempt: usize, wait_granularity: u64) -> (WaitStep, usize) {
    if attempt < DEFAULT_YIELD {
        (WaitStep::Yield, (attempt + 1) as usize)
    } else {
        (WaitStep::Sleep(wait_granularity), attempt)
    }
}

/// The waiting schedule: during the first `DEFAULT_YIELD` failed attempts a waiting task
/// yields and counts one more attempt; from then on it sleeps exactly the granularity it was
/// given, in microseconds, and the count stays.
pub proof fn lemma_wait_schedule(attempt: usize, wait_granularity: u64)
    ensures
        attempt < 32 ==> wait_policy(attempt, wait_granularity).0 == WaitStep::Yield
            && wait_policy(attempt, wait_granularity).1 == attempt + 1,
        attempt >= 32 ==> wait_policy(attempt, wait_granularity).0 == WaitStep::Sleep(wait_granularity)
            && wait_policy(attempt, wait_granularity).1 == attempt,
{
}

/// `m` is a new mutex holding `resource`: free, with no waiter and nothing woken.
pub open spec fn is_fresh<T>(m: Mutex<T>, resource: T) -> bool {
    &&& !m.locked()
    &&& m.waiting() == Seq::<u64>::empty()
    &&& m.woken() == Seq::<u64>::empty()
    &&& m.value() == resource
}

/// `held` is what `try_lock` leaves of `before` when it takes the mutex (`taken`), or the
/// unchanged mutex when it does not.
pub open spec fn try_lock_effect<T>(before: Mutex<T>, taken: bool, held: Mutex<T>) -> bool {
    if before.locked() {
        &&& !taken
        &&& held == before
    } else {
        &&& taken
        &&& held.locked()
        &&& held.value() == before.value()
        &&& held.waiting() == before.waiting()
        &&& held.woken() == before.woken()
    }
}

/// `after` is `before` with `v` written through a guard.
pub open spec fn write_effect<T>(before: Mutex<T>, v: T, after: Mutex<T>) -> bool {
    &&& after.value() == v
    &&& after.locked() == before.locked()
    &&& after.waiting() == before.waiting()
    &&& after.woken() == before.woken()
}

/// `after` is `before` released: unlocked, and the front waiter, if any, moved from the
/// waiting queue to the woken wakers.
pub open spec fn release_effect<T>(before: Mutex<T>, after: Mutex<T>) -> bool {
    &&& !after.locked()
    &&& after.value() == before.value()
    &&& after.waiting() == dequeue(before.waiting())
    &&& after.woken() == before.woken() + first_of(before.waiting())
}

impl<T> Mutex<T> {
    /// Whether the mutex is held.
    pub closed spec fn locked(&self) -> bool {
        self.is_locked
    }

    /// How many wakers at the front of the table have been woken.
    closed spec fn woken_count(&self) -> int {
        min_nat(self.wakers.pos() as int, self.wakers.entries().len() as int)
    }

    /// The wakers of the tasks waiting for the mutex, front first.
    pub closed spec fn waiting(&self) -> Seq<u64> {
        self.wakers.entries().skip(self.woken_count())
    }

    /// The wakers woken and not yet taken by the runtime, oldest first.
    pub closed spec fn woken(&self) -> Seq<u64> {
        self.wakers.entries().take(self.woken_count())
    }

    /// The protected value.
    pub closed spec fn value(&self) -> T {
        self.data
    }

    /// A free mutex holding `resource`, whose waiting queue has room for `len` wakers, or for
    /// `DEFAULT_SIZE` when `len` is zero, before it grows.
    pub fn new_with_capacity(resource: T, len: usize) -> (m: Mutex<T>)
        ensures
            is_fresh(m, resource),
    {
        proof {
            assert(Seq::<u64>::empty().skip(0) =~= Seq::<u64>::empty());
            assert(Seq::<u64>::empty().take(0) =~= Seq::<u64>::empty());
        }
        let capacity: usize = if len > 0 {
            len
        } else {
            DEFAULT_SIZE
        };
        Mutex::<T> {
            is_locked: false,
            wakers: WakerTable::with_capacity(capacity),
            data: resource,
        }
    }

    /// A free mutex holding `resource`, with room for `DEFAULT_SIZE` waiting wakers.
    pub fn new(resource: T) -> (m: Mutex<T>)
        ensures
            is_fresh(m, resource),
    {
        Mutex::<T>::new_with_capacity(resource, 0)
    }

    /// A future that takes the mutex once polled to completion.
    pub fn lock(&mut self) -> (f: FutureLock<'_, T>)
        ensures
            *f.source() == *old(self),
            *final(f.source()) == *final(self),
    {
        FutureLock::new(self)
    }

    /// Takes the mutex if it is free: a guard on success; nothing, and no change, if it is held.
    pub fn try_lock(&mut self) -> (r: Option<LockGuard<'_, T>>)
        ensures
            old(self).locked() ==> r is None && *final(self) == *old(self),
            !old(self).locked() ==> (r matches Some(g) && {
                &&& try_lock_effect(*old(self), true, *g.mutex())
                &&& *final(g.mutex()) == *final(self)
            }),
    {
        if self.is_locked {
            None
        } else {
            Some(LockGuard::new(self))
        }
    }

    /// One attempt of a task that takes the mutex by waiting for it, with the default wait
    /// granularity: see `sync_lock_with_time`.
    pub fn sync_lock(&mut self, attempt: usize) -> (r: Result<LockGuard<'_, T>, (WaitStep, usize)>)
        ensures
            !old(self).locked() ==> (r matches Ok(g) && {
                &&& try_lock_effect(*old(self), true, *g.mutex())
                &&& *final(g.mutex()) == *final(self)
            }),
            old(self).locked() ==> (r matches Err(step) && step == wait_policy(attempt, DEFAULT_DURATION))
                && *final(self) == *old(self),
            old(self).locked() && attempt >= 32 ==> (r matches Err(step) && step == (WaitStep::Sleep(10), attempt)),
    {
        self.sync_lock_with_time(DEFAULT_DURATION, attempt)
    }

    /// One attempt of a task that takes the mutex by waiting for it, after `attempt` failed
    /// attempts: a guard if the mutex is free; if it is held, the mutex is left as it is and
    /// the caller is told how to wait before its next attempt (yield during the first
    /// `DEFAULT_YIELD` attempts, then sleep `wait_granularity` microseconds each time) and
    /// which attempt count to pass then.
    pub fn sync_lock_with_time(&mut self, wait_granularity: u64, attempt: usize) -> (r: Result<
        LockGuard<'_, T>,
        (WaitStep, usize),
    >)
        ensures
            !old(self).locked() ==> (r matches Ok(g) && {
                &&& try_lock_effect(*old(self), true, *g.mutex())
                &&& *final(g.mutex()) == *final(self)
            }),
            old(self).locked() ==> (r matches Err(step) && step == wait_policy(attempt, wait_granularity))
                && *final(self) == *old(self),
            old(self).locked() && attempt >= 32 ==> (r matches Err(step) && step == (WaitStep::Sleep(wait_granularity), attempt)),
            old(self).locked() && attempt < 32 ==> (r matches Err(step) && step == (WaitStep::Yield, (attempt + 1) as usize)),
    {
        if self.is_locked {
            Err(wait_step(attempt, wait_granularity))
        } else {
            Ok(LockGuard::new(self))
        }
    }

    /// Whether the mutex is held.
    pub fn get_lock_status(&self) -> (b: bool)
        ensures
            b == self.locked(),
    {
        self.is_locked
    }

    /// Whether `waker` is in the waiting queue.
    pub fn is_waiting(&self, waker: u64) -> (b: bool)
        ensures
            b == self.waiting().contains(waker),
    {
        let k = self.wakers.cursor();
        self.wakers.contains_from(k, waker)
    }

    /// Unlocks the mutex and wakes the next waiting task: its waker leaves the waiting queue
    /// for the woken wakers.
    pub fn release(&mut self)
        ensures
            release_effect(*old(self), *final(self)),
        opens_invariants none
        no_unwind
    {
        self.is_locked = false;
        self.wakers.advance();
        proof {
            let k = old(self).woken_count();
            let e = self.wakers.entries();
            if k < e.len() {
                assert(self.waiting() =~= old(self).waiting().drop_first());
                assert(self.woken() =~= old(self).woken() + seq![old(self).waiting()[0]]);
            } else {
                assert(self.waiting() =~= old(self).waiting());
                assert(self.woken() =~= old(self).woken());
            }
        }
    }

    /// Hands the woken wakers to the runtime, oldest first, and forgets them.
    pub fn take_woken(&mut self) -> (ws: Vec<u64>)
        ensures
            ws@ == old(self).woken(),
            final(self).woken() == Seq::<u64>::empty(),
            final(self).locked() == old(self).locked(),
            final(self).waiting() == old(self).waiting(),
            final(self).value() == old(self).value(),
    {
        let k = self.wakers.cursor();
        self.wakers.hand_out_to(k);
        let ws = self.wakers.take_prefix(k);
        proof {
            assert(self.waiting() =~= old(self).waiting());
            assert(self.woken() =~= Seq::<u64>::empty());
        }
        ws
    }
}

/// The step a task waiting for a held mutex takes after `attempt` failed attempts: it yields
/// during the first `DEFAULT_YIELD` attempts, then sleeps `wait_granularity` microseconds each
/// time. Returns the step and the attempt count to use next.
pub fn wait_step(attempt: usize, wait_granularity: u64) -> (r: (WaitStep, usize))
    ensures
        r == wait_policy(attempt, wait_granularity),
        attempt < 32 ==> r == (WaitStep::Yield, (attempt + 1) as usize),
        attempt >= 32 ==> r == (WaitStep::Sleep(wait_granularity), attempt),
{
    if attempt < DEFAULT_YIELD {
        (WaitStep::Yield, attempt + 1)
    } else {
        (WaitStep::Sleep(wait_granularity), attempt)
    }
}

/// The decimal text of a digit.
pub open spec fn digit_text(d: nat) -> Seq<char> {
    if d == 0 {
        "0"@
    } else if d == 1 {
        "1"@
    } else if d == 2 {
        "2"@
    } else if d == 3 {
        "3"@
    } else if d == 4 {
        "4"@
    } else if d == 5 {
        "5"@
    } else if d == 6 {
        "6"@
    } else if d == 7 {
        "7"@
    } else if d == 8 {
        "8"@
    } else {
        "9"@
    }
}

/// The decimal text of `n`, without leading zeros.
pub open spec fn decimal(n: nat) -> Seq<char>
    decreases n,
{
    if n < 10 {
        digit_text(n)
    } else {
        decimal(n / 10) + digit_text(n % 10)
    }
}

/// The message of a lock error with `n` tasks in front.
pub open spec fn lock_error_text(n: nat) -> Seq<char> {
    "Error Locking Mutex, "@ + decimal(n) + " other tasks in queue"@
}

fn digit_str(d: usize) -> (s: &'static str)
    requires
        d < 10,
    ensures
        s@ == digit_text(d as nat),
{
    if d == 0 {
        "0"
    } else if d == 1 {
        "1"
    } else if d == 2 {
        "2"
    } else if d == 3 {
        "3"
    } else if d == 4 {
        "4"
    } else if d == 5 {
        "5"
    } else if d == 6 {
        "6"
    } else if d == 7 {
        "7"
    } else if d == 8 {
        "8"
    } else {
        "9"
    }
}

/// Appends the decimal text of `n` to `s`.
fn push_decimal(s: &mut String, n: usize)
    ensures
        final(s)@ == old(s)@ + decimal(n as nat),
    decreases n,
{
    if n < 10 {
        s.append(digit_str(n));
    } else {
        push_decimal(s, n / 10);
        s.append(digit_str(n % 10));
        assert(decimal(n as nat) == decimal((n / 10) as nat) + digit_text((n % 10) as nat));
    }
}

impl LockError {
    /// The number of tasks in front.
    pub closed spec fn tasks(&self) -> usize {
        self.n_tasks
    }

    /// An error with `tasks_` tasks in front.
    pub fn new(tasks_: usize) -> (e: LockError)
        ensures
            e.tasks() == tasks_,
    {
        LockError { n_tasks: tasks_ }
    }

    /// The number of tasks in front.
    pub fn n_tasks(&self) -> (n: usize)
        ensures
            n == self.tasks(),
    {
        self.n_tasks
    }

    /// The message of the error: "Error Locking Mutex, N other tasks in queue".
    pub fn message(&self) -> (s: String)
        ensures
            s@ == lock_error_text(self.tasks() as nat),
    {
        let mut s = String::from_str("Error Locking Mutex, ");
        push_decimal(&mut s, self.n_tasks);
        s.append(" other tasks in queue");
        s
    }
}

impl<'a, T> FutureLock<'a, T> {
    /// The mutex this future locks.
    pub closed spec fn source(&self) -> &'a mut Mutex<T> {
        self.source
    }

    /// A future for `source`.
    fn new(source: &'a mut Mutex<T>) -> (f: FutureLock<'a, T>)
        ensures
            *f.source() == *old(source),
            *final(f.source()) == *final(source),
    {
        FutureLock { source: source, wk_key: usize::MAX }
    }

    /// Tries the lock once for the task whose waker is `waker`: ready with a guard if the mutex
    /// is free; else pending, with `waker` put at the back of the waiting queue unless it is
    /// already in it.
    pub fn poll(self, waker: u64) -> (r: LockPoll<'a, T>)
        ensures
            !old(self.source()).locked() ==> (r matches LockPoll::Ready(g) && {
                &&& try_lock_effect(*old(self.source()), true, *g.mutex())
                &&& *final(g.mutex()) == *final(self.source())
            }),
            old(self.source()).locked() ==> (r matches LockPoll::Pending(f) && {
                &&& f.source().locked()
                &&& f.source().value() == old(self.source()).value()
                &&& f.source().woken() == old(self.source()).woken()
                &&& f.source().waiting() == if old(self.source()).waiting().contains(waker) {
                    old(self.source()).waiting()
                } else {
                    old(self.source()).waiting().push(waker)
                }
                &&& *final(f.source()) == *final(self.source())
            }),
    {
        let fut = self;
        if fut.source.is_locked {
            if !fut.source.is_waiting(waker) {
                let ghost before = *fut.source;
                fut.source.wakers.push(waker);
                proof {
                    assert(fut.source.waiting() =~= before.waiting().push(waker));
                    assert(fut.source.woken() =~= before.woken());
                }
            }
            LockPoll::Pending(fut)
        } else {
            LockPoll::Ready(LockGuard::new(fut.source))
        }
    }
}

impl<'a, T> LockGuard<'a, T> {
    /// The mutex this guard holds.
    pub closed spec fn mutex(&self) -> &'a mut Mutex<T> {
        self.lock
    }

    /// A guard on `mtx`, which it locks.
    fn new(mtx: &'a mut Mutex<T>) -> (g: LockGuard<'a, T>)
        ensures
            g.mutex().locked(),
            g.mutex().value() == old(mtx).value(),
            g.mutex().waiting() == old(mtx).waiting(),
            g.mutex().woken() == old(mtx).woken(),
            *final(g.mutex()) == *final(mtx),
    {
        mtx.is_locked = true;
        LockGuard { lock: mtx }
    }

    /// The protected value.
    pub fn deref(&self) -> (v: &T)
        ensures
            *v == self.mutex().value(),
    {
        &self.lock.data
    }

    /// The protected value, for writing.
    pub fn deref_mut(&mut self) -> (v: &mut T)
        ensures
            *v == old(self).mutex().value(),
            write_effect(*old(self).mutex(), *final(v), *final(self).mutex()),
            *final(final(self).mutex()) == *final(old(self).mutex()),
    {
        &mut self.lock.data
    }
}

impl<'a, T> Drop for LockGuard<'a, T> {
    /// Releases the mutex: unlocks it and wakes the next waiting task.
    fn drop(&mut self)
        ensures
            release_effect(*old(self).mutex(), *final(self).mutex()),
        opens_invariants none
        no_unwind
    {
        self.lock.release();
    }
}

/// A value written under the lock is what the next holder reads: taking a free mutex,
/// writing `v` through the guard, dropping the guard and taking the mutex again gives a guard
/// on `v`.
pub proof fn lemma_relock_reads_last_write<T>(
    m0: Mutex<T>,
    m1: Mutex<T>,
    m2: Mutex<T>,
    m3: Mutex<T>,
    m4: Mutex<T>,
    v: T,
    taken: bool,
)
    requires
        !m0.locked(),
        try_lock_effect(m0, true, m1),
        write_effect(m1, v, m2),
        release_effect(m2, m3),
        try_lock_effect(m3, taken, m4),
    ensures
        taken,
        m4.locked(),
        m4.value() == v,
{
}

/// Dropping the guard undoes taking the lock: a free mutex taken and released at once is free
/// again and holds its value; with no task waiting, nothing else changed either.
pub proof fn lemma_release_undoes_try_lock<T>(m0: Mutex<T>, m1: Mutex<T>, m2: Mutex<T>)
    requires
        !m0.locked(),
        try_lock_effect(m0, true, m1),
        release_effect(m1, m2),
    ensures
        !m2.locked(),
        m2.value() == m0.value(),
        m0.waiting().len() == 0 ==> m2.waiting() == m0.waiting() && m2.woken() == m0.woken(),
{
    if m0.waiting().len() == 0 {
        assert(m2.woken() =~= m0.woken());
    }
}

/// A held mutex cannot be taken a second time: whatever `try_lock` returns on a mutex that a
/// guard holds, it does not take it, and leaves it as it was.
pub proof fn lemma_exclusion<T>(m0: Mutex<T>, m1: Mutex<T>, m2: Mutex<T>, taken: bool)
    requires
        try_lock_effect(m0, true, m1),
        try_lock_effect(m1, taken, m2),
    ensures
        !taken,
        m2 == m1,
{
}

/// The requested capacity is not observable: two new mutexes holding the same value agree on
/// the lock, the waiting queue, the woken wakers and the value, and every operation's contract
/// is stated over these alone.
pub proof fn lemma_capacity_unobservable<T>(m1: Mutex<T>, m2: Mutex<T>, resource: T)
    requires
        is_fresh(m1, resource),
        is_fresh(m2, resource),
    ensures
        m1.locked() == m2.locked(),
        m1.waiting() == m2.waiting(),
        m1.woken() == m2.woken(),
        m1.value() == m2.value(),
{
}

/// Handing over: a mutex released while tasks wait wakes them one release at a time, front
/// first: after the release the first waiter's waker is the newest woken one.
pub proof fn lemma_release_wakes_front<T>(m0: Mutex<T>, m1: Mutex<T>)
    requires
        m0.waiting().len() > 0,
        release_effect(m0, m1),
    ensures
        m1.woken().last() == m0.waiting()[0],
        m1.waiting() == m0.waiting().drop_first(),
{
}

} // verus!
