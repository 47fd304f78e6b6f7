use vstd::prelude::*;

use std::time::Duration;

use crate::time_spec::{duration_nanos, duration_new};

verus! {

/// Nanoseconds that a failed `try_lock` waits per task in the queue.
pub const BASE_CLODOTEX_WAIT_NANOSECONDS: u32 = 500;

/// A lock that counts the tasks queued on it and makes a failed attempt wait longer the
/// longer the queue is.
pub struct ClodoTex<T> {
    is_locked: bool,
    queue_size: u16,
    resource: T,
}

impl<T> ClodoTex<T> {
    /// Whether the lock is held.
    pub closed spec fn locked(&self) -> bool {
        self.is_locked
    }

    /// The number of queued tasks.
    pub closed spec fn queued(&self) -> u16 {
        self.queue_size
    }

    /// The protected value.
    pub closed spec fn value(&self) -> T {
        self.resource
    }

    /// An unlocked lock with an empty queue holding `resource`.
    pub fn new(resource: T) -> (c: ClodoTex<T>)
        ensures
            !c.locked(),
            c.queued() == 0,
            c.value() == resource,
    {
        ClodoTex { is_locked: false, queue_size: 0, resource: resource }
    }

    /// Takes the lock if it is free. On failure the caller is to wait `get_wait_duration`
    /// before it tries again.
    pub fn try_lock(&mut self) -> (taken: bool)
        ensures
            taken == !old(self).locked(),
            final(self).locked(),
            final(self).queued() == old(self).queued(),
            final(self).value() == old(self).value(),
    {
        if self.is_locked {
            false
        } else {
            self.is_locked = true;
            true
        }
    }

    /// Leaves the queue and unlocks. The count is lowered with wrap-around, then clamped to
    /// at most zero, so it is zero afterwards.
    pub fn release(&mut self)
        ensures
            !final(self).locked(),
            final(self).queued() == 0,
            final(self).value() == old(self).value(),
    {
        self.queue_size = self.queue_size.wrapping_sub(1);
        if self.queue_size > 0 {
            self.queue_size = 0;
        }
        self.is_locked = false;
    }

    /// How long a failed attempt waits: `BASE_CLODOTEX_WAIT_NANOSECONDS` per queued task.
    pub fn get_wait_duration(&self) -> (d: Duration)
        ensures
            duration_nanos(d) == self.queued() * BASE_CLODOTEX_WAIT_NANOSECONDS,
    {
        let nanos: u32 = (self.queue_size as u32) * BASE_CLODOTEX_WAIT_NANOSECONDS;
        duration_new(0, nanos)
    }

    /// Takes the lock if it is free and hands out the protected value; nothing if it is held.
    pub fn beg(&mut self) -> (r: Option<&mut T>)
        ensures
            old(self).locked() ==> r is None && *final(self) == *old(self),
            !old(self).locked() ==> (r matches Some(v) && {
                &&& *v == old(self).value()
                &&& final(self).value() == *final(v)
                &&& final(self).locked()
                &&& final(self).queued() == old(self).queued()
            }),
    {
        if self.try_lock() {
            Some(&mut self.resource)
        } else {
            None
        }
    }
}

} // verus!
