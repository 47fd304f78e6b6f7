use pseudo_mutex::pseudo_mutex::{PseudoGuard, PseudoMutex, PseudoPoll};

/// Runs the two polls of a lock future for `id`, expecting the second to take the mutex.
fn take<'a, T>(m: &'a mut PseudoMutex<T>, id: u64) -> PseudoGuard<'a, T> {
    match m.lock().poll(id) {
        PseudoPoll::Pending(f) => match f.poll(id) {
            PseudoPoll::Ready(g) => g,
            PseudoPoll::Pending(_) => panic!("a free mutex must be taken"),
        },
        PseudoPoll::Ready(_) => panic!("a first poll only queues"),
    }
}

#[test]
fn single() {
    // Two threads of fifty tasks each, one after the other, on a mutex with room for fifteen
    // wakers: each task finds the queue empty, is woken at once and adds one to the counter.
    let n_threads: u64 = 2;
    let n_tasks: u64 = 50;
    let mut m = PseudoMutex::new_with_capacity(0u64, 15);
    for th in 0..n_threads {
        for task in 0..n_tasks {
            let id = th * n_tasks + task;
            {
                let mut g = take(&mut m, id);
                *g.deref_mut() += 1;
            }
            assert_eq!(m.take_woken(), vec![id]);
        }
    }
    let g = take(&mut m, 999);
    assert_eq!(*g.deref(), n_threads * n_tasks);
}

#[test]
fn newest_waker_is_served_first() {
    let mut m = PseudoMutex::new(0u32);
    m.queue_waker(1);
    m.queue_waker(2);
    m.queue_waker(3);
    assert_eq!(m.take_woken(), vec![1]);
    // a task takes the mutex; its waker joins the front
    std::mem::forget(take_now(&mut m));
    assert!(m.take_woken().is_empty());
    m.release();
    // the holder's waker left the front; the newest of the others is next
    assert_eq!(m.take_woken(), vec![3]);
    std::mem::forget(take_now(&mut m));
    m.release();
    assert_eq!(m.take_woken(), vec![3]);
}

/// Takes a free mutex through the lock future of a task already in the queue.
fn take_now<'a, T>(m: &'a mut PseudoMutex<T>) -> PseudoGuard<'a, T> {
    match m.lock().poll(u64::MAX) {
        PseudoPoll::Pending(f) => match f.poll(u64::MAX) {
            PseudoPoll::Ready(g) => g,
            PseudoPoll::Pending(_) => panic!("free mutex"),
        },
        PseudoPoll::Ready(_) => panic!("first poll queues"),
    }
}

#[test]
fn lone_waker_is_woken_at_once() {
    let mut m = PseudoMutex::new(());
    m.queue_waker(7);
    m.queue_waker(8);
    m.queue_waker(9);
    assert_eq!(m.take_woken(), vec![7]);
}

#[test]
fn new_waker_goes_to_the_front() {
    let mut m = PseudoMutex::new(());
    m.queue_waker(7);
    m.queue_waker(8);
    std::mem::forget(take_now(&mut m));
    m.take_woken();
    m.release();
    // the queue was [u64::MAX, 8, 7]: the front left, and 8 is next
    assert_eq!(m.take_woken(), vec![8]);
}

#[test]
fn release_of_a_free_mutex_does_nothing() {
    let mut m = PseudoMutex::new(1u8);
    m.queue_waker(3);
    m.queue_waker(4);
    assert_eq!(m.take_woken(), vec![3]);
    m.release();
    assert!(m.take_woken().is_empty());
    // the queue is untouched: dropping a guard now wakes the second waker
    drop(take(&mut m, 3));
    assert_eq!(m.take_woken(), vec![4]);
}

#[test]
fn release_wakes_the_next_in_line() {
    let mut m = PseudoMutex::new(String::from("x"));
    let g = take(&mut m, 1);
    std::mem::forget(g);
    assert_eq!(m.take_woken(), vec![1]);
    m.queue_waker(2);
    m.queue_waker(5);
    assert!(m.take_woken().is_empty());
    m.release();
    assert_eq!(m.take_woken(), vec![2]);
}

#[test]
fn held_mutex_keeps_later_polls_pending() {
    let mut m = PseudoMutex::new(0i32);
    std::mem::forget(take(&mut m, 1));
    let f = match m.lock().poll(2) {
        PseudoPoll::Pending(f) => f,
        PseudoPoll::Ready(_) => panic!("first poll queues"),
    };
    match f.poll(2) {
        PseudoPoll::Pending(_) => {}
        PseudoPoll::Ready(_) => panic!("held mutex"),
    }
    assert_eq!(m.take_woken(), vec![1]);
}

#[test]
fn value_written_through_the_guard_stays() {
    let mut m = PseudoMutex::new(vec![1u8]);
    {
        let mut g = take(&mut m, 1);
        g.deref_mut().push(2);
        assert_eq!(g.deref(), &vec![1u8, 2]);
    }
    let g = take(&mut m, 4);
    assert_eq!(g.deref(), &vec![1u8, 2]);
}
