use vstd::prelude::*;

verus! {

/// The queue once its front waker, if any, has left.
pub open spec fn dequeue(queue: Seq<u64>) -> Seq<u64> {
    if queue.len() == 0 {
        queue
    } else {
        queue.drop_first()
    }
}

/// The front waker of the queue as a sequence: empty for an empty queue.
pub open spec fn first_of(queue: Seq<u64>) -> Seq<u64> {
    if queue.len() == 0 {
        Seq::empty()
    } else {
        seq![queue[0]]
    }
}

/// An optional waker as a sequence of zero or one waker.
pub open spec fn opt_seq(w: Option<u64>) -> Seq<u64> {
    match w {
        Some(x) => seq![x],
        None => Seq::empty(),
    }
}

/// The smaller of `a` and `b`.
pub open spec fn min_nat(a: int, b: int) -> int {
    if a <= b {
        a
    } else {
        b
    }
}

/// A copy of the wakers `v[lo..hi]`.
pub fn copy_range(v: &Vec<u64>, lo: usize, hi: usize) -> (r: Vec<u64>)
    requires
        lo <= hi <= v@.len(),
    ensures
        r@ == v@.subrange(lo as int, hi as int),
{
    let mut r: Vec<u64> = Vec::new();
    let mut i: usize = lo;
    while i < hi
        invariant
            lo <= i <= hi <= v@.len(),
            r@ == v@.subrange(lo as int, i as int),
        decreases hi - i,
    {
        r.push(v[i]);
        i = i + 1;
        assert(r@ =~= v@.subrange(lo as int, i as int));
    }
    r
}

/// A table of wakers in the order they were added, with a cursor that marks how many of them,
/// from the front, have been passed over, and a count of how many, from the front, have been
/// handed to the runtime. Moving the cursor neither allocates nor unwinds, so a guard's `drop`
/// can do it.
pub struct WakerTable {
    items: Vec<u64>,
    count: usize,
    cursor: usize,
    handed: usize,
}

impl WakerTable {
    #[verifier::type_invariant]
    spec fn inv(&self) -> bool {
        &&& self.count == self.items@.len()
        &&& self.cursor <= self.count
        &&& self.handed <= self.count
        &&& self.handed <= self.cursor + 1
    }

    /// Whether the counters lie within the table, as they always do.
    pub open spec fn counters_fit(&self) -> bool {
        &&& self.pos() <= self.entries().len()
        &&& self.handed_count() <= self.entries().len()
        &&& self.handed_count() <= self.pos() + 1
    }

    /// How many wakers, from the front, have been handed to the runtime.
    pub closed spec fn handed_count(&self) -> nat {
        self.handed as nat
    }

    /// The wakers, oldest first.
    pub closed spec fn entries(&self) -> Seq<u64> {
        self.items@
    }

    /// How many wakers, from the front, the cursor has passed.
    pub closed spec fn pos(&self) -> nat {
        self.cursor as nat
    }

    /// An empty table with room for `cap` wakers before it grows.
    pub fn with_capacity(cap: usize) -> (t: WakerTable)
        ensures
            t.entries() == Seq::<u64>::empty(),
            t.pos() == 0,
            t.handed_count() == 0,
    {
        WakerTable { items: Vec::with_capacity(cap), count: 0, cursor: 0, handed: 0 }
    }

    /// The number of wakers in the table.
    pub fn len(&self) -> (n: usize)
        ensures
            n == self.entries().len(),
        opens_invariants none
        no_unwind
    {
        proof {
            use_type_invariant(self);
        }
        self.count
    }

    /// The position of the cursor.
    pub fn cursor(&self) -> (c: usize)
        ensures
            c == self.pos(),
            self.counters_fit(),
        opens_invariants none
        no_unwind
    {
        proof {
            use_type_invariant(self);
        }
        self.cursor
    }

    /// The waker at position `i`.
    pub fn get(&self, i: usize) -> (w: u64)
        requires
            i < self.entries().len(),
        ensures
            w == self.entries()[i as int],
    {
        self.items[i]
    }

    /// Moves the cursor past one more waker, unless it is at the end.
    pub fn advance(&mut self)
        ensures
            final(self).entries() == old(self).entries(),
            old(self).counters_fit(),
            final(self).handed_count() == old(self).handed_count(),
            final(self).pos() == if old(self).pos() < old(self).entries().len() {
                old(self).pos() + 1
            } else {
                old(self).pos()
            },
        opens_invariants none
        no_unwind
    {
        proof {
            use_type_invariant(&*self);
        }
        if self.cursor < self.count {
            self.cursor = self.cursor + 1;
        }
    }

    /// Adds `w` at the back.
    pub fn push(&mut self, w: u64)
        ensures
            final(self).entries() == old(self).entries().push(w),
            final(self).pos() == old(self).pos(),
            final(self).handed_count() == old(self).handed_count(),
            old(self).counters_fit(),
    {
        proof {
            use_type_invariant(&*self);
        }
        let mut t = WakerTable::with_capacity(0);
        std::mem::swap(&mut t, self);
        let WakerTable { items, count, cursor, handed } = t;
        let mut items = items;
        items.push(w);
        let n = items.len();
        *self = WakerTable { items: items, count: n, cursor: cursor, handed: handed };
    }

    /// The number of wakers handed to the runtime.
    pub fn handed(&self) -> (h: usize)
        ensures
            h == self.handed_count(),
            self.counters_fit(),
    {
        proof {
            use_type_invariant(self);
        }
        self.handed
    }

    /// Records that the first `n` wakers have been handed to the runtime.
    pub fn hand_out_to(&mut self, n: usize)
        requires
            n <= old(self).entries().len(),
            n <= old(self).pos() + 1,
        ensures
            final(self).entries() == old(self).entries(),
            final(self).pos() == old(self).pos(),
            final(self).handed_count() == n,
    {
        proof {
            use_type_invariant(&*self);
        }
        self.handed = n;
    }

    /// Removes the first `k` wakers, all passed over and handed out, and returns them, oldest
    /// first; both counters move back by `k`.
    pub fn take_prefix(&mut self, k: usize) -> (front: Vec<u64>)
        requires
            k <= old(self).pos(),
            k <= old(self).handed_count(),
        ensures
            front@ == old(self).entries().take(k as int),
            final(self).entries() == old(self).entries().skip(k as int),
            final(self).pos() == old(self).pos() - k,
            final(self).handed_count() == old(self).handed_count() - k,
    {
        proof {
            use_type_invariant(&*self);
        }
        let front = copy_range(&self.items, 0, k);
        let rest = copy_range(&self.items, k, self.count);
        let n = self.count - k;
        let c = self.cursor - k;
        let h = self.handed - k;
        *self = WakerTable { items: rest, count: n, cursor: c, handed: h };
        proof {
            assert(front@ =~= old(self).entries().take(k as int));
            assert(self.entries() =~= old(self).entries().skip(k as int));
        }
        front
    }

    /// A copy of the wakers at positions `lo` to `hi`, `hi` excluded.
    pub fn copy_entries(&self, lo: usize, hi: usize) -> (r: Vec<u64>)
        requires
            lo <= hi <= self.entries().len(),
        ensures
            r@ == self.entries().subrange(lo as int, hi as int),
    {
        copy_range(&self.items, lo, hi)
    }

    /// Whether `w` is among the wakers from position `start` on.
    pub fn contains_from(&self, start: usize, w: u64) -> (b: bool)
        requires
            start <= self.entries().len(),
        ensures
            b == self.entries().skip(start as int).contains(w),
    {
        proof {
            use_type_invariant(self);
        }
        let mut i: usize = start;
        while i < self.count
            invariant
                start <= i <= self.count,
                self.count == self.items@.len(),
                forall|j: int| start <= j < i ==> self.items@[j] != w,
            decreases self.count - i,
        {
            if self.items[i] == w {
                assert(self.entries().skip(start as int)[i - start] == w);
                return true;
            }
            i = i + 1;
        }
        assert forall|j: int| 0 <= j < self.entries().skip(start as int).len() implies self.entries().skip(
            start as int,
        )[j] != w by {
            assert(self.entries().skip(start as int)[j] == self.items@[j + start]);
        }
        false
    }
}

/// A stack of wakers: the waker added last is the front. Removing the front only lowers a
/// height counter, so it neither allocates nor unwinds and a guard's `drop` can do it.
pub struct WakerStack {
    items: Vec<u64>,
    count: usize,
    top: usize,
}

impl WakerStack {
    #[verifier::type_invariant]
    spec fn inv(&self) -> bool {
        &&& self.count == self.items@.len()
        &&& self.top <= self.count
    }

    /// The wakers in the stack, front (newest) first.
    pub closed spec fn front_first(&self) -> Seq<u64> {
        Seq::new(self.top as nat, |i: int| self.items@[self.top - 1 - i])
    }

    /// An empty stack with room for `cap` wakers before it grows.
    pub fn with_capacity(cap: usize) -> (s: WakerStack)
        ensures
            s.front_first() == Seq::<u64>::empty(),
    {
        let s = WakerStack { items: Vec::with_capacity(cap), count: 0, top: 0 };
        assert(s.front_first() =~= Seq::<u64>::empty());
        s
    }

    /// The number of wakers in the stack.
    pub fn height(&self) -> (n: usize)
        ensures
            n == self.front_first().len(),
        opens_invariants none
        no_unwind
    {
        self.top
    }

    /// The front waker, if any.
    pub fn front(&self) -> (w: Option<u64>)
        ensures
            w == if self.front_first().len() > 0 {
                Some(self.front_first()[0])
            } else {
                None
            },
    {
        proof {
            use_type_invariant(self);
        }
        if self.top > 0 {
            Some(self.items[self.top - 1])
        } else {
            None
        }
    }

    /// Puts `w` at the front.
    pub fn push_front(&mut self, w: u64)
        ensures
            final(self).front_first() == seq![w] + old(self).front_first(),
    {
        proof {
            use_type_invariant(&*self);
        }
        let mut s = WakerStack::with_capacity(0);
        std::mem::swap(&mut s, self);
        let WakerStack { items, count, top } = s;
        let mut live = if top == count {
            items
        } else {
            copy_range(&items, 0, top)
        };
        assert(live@ =~= old(self).items@.subrange(0, top as int));
        live.push(w);
        let n = live.len();
        *self = WakerStack { items: live, count: n, top: n };
        assert(self.front_first() =~= seq![w] + old(self).front_first());
    }

    /// Removes the front waker, if any.
    pub fn pop_front(&mut self)
        ensures
            final(self).front_first() == dequeue(old(self).front_first()),
        opens_invariants none
        no_unwind
    {
        proof {
            use_type_invariant(&*self);
        }
        if self.top > 0 {
            self.top = self.top - 1;
        }
        assert(self.front_first() =~= dequeue(old(self).front_first()));
    }
}

/// Whether a mutex is held, and whether a release has woken the front of its queue without the
/// runtime being told yet; a held mutex has no such wake pending.
pub struct WakeState {
    locked: bool,
    due: bool,
}

impl WakeState {
    #[verifier::type_invariant]
    spec fn inv(&self) -> bool {
        self.locked ==> !self.due
    }

    /// Whether the mutex is held.
    pub closed spec fn is_locked(&self) -> bool {
        self.locked
    }

    /// Whether a wake of the front of the queue is pending.
    pub closed spec fn wake_due(&self) -> bool {
        self.due
    }

    /// Free, with no wake pending.
    pub fn new() -> (s: WakeState)
        ensures
            !s.is_locked(),
            !s.wake_due(),
    {
        WakeState { locked: false, due: false }
    }

    /// Whether the mutex is held.
    pub fn locked(&self) -> (b: bool)
        ensures
            b == self.is_locked(),
    {
        self.locked
    }

    /// Whether a wake of the front of the queue is pending.
    pub fn due(&self) -> (b: bool)
        ensures
            b == self.wake_due(),
    {
        self.due
    }

    /// Releases a held mutex, leaving a wake of the front of the queue pending; returns
    /// whether the mutex was held. Does nothing to a free one.
    pub fn release(&mut self) -> (was_locked: bool)
        ensures
            was_locked == old(self).is_locked(),
            old(self).is_locked() ==> !old(self).wake_due() && !final(self).is_locked()
                && final(self).wake_due(),
            !old(self).is_locked() ==> *final(self) == *old(self),
        opens_invariants none
        no_unwind
    {
        proof {
            use_type_invariant(&*self);
        }
        if self.locked {
            *self = WakeState { locked: false, due: true };
            true
        } else {
            false
        }
    }

    /// Clears the pending wake.
    pub fn settle(&mut self)
        ensures
            final(self).is_locked() == old(self).is_locked(),
            !final(self).wake_due(),
    {
        *self = WakeState { locked: self.locked, due: false };
    }

    /// Takes the mutex, which must be free with no wake pending.
    pub fn lock(&mut self)
        requires
            !old(self).wake_due(),
        ensures
            final(self).is_locked(),
            !final(self).wake_due(),
    {
        *self = WakeState { locked: true, due: false };
    }
}

} // verus!
