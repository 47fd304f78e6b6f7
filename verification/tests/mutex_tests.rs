use pseudo_mutex::mutex::{wait_step, LockError, LockPoll, Mutex, WaitStep, DEFAULT_YIELD};

#[derive(Debug, Clone, PartialEq)]
struct Schmilblick {
    field1: i64,
    field2: String,
    field3: (u128, bool),
    field4: Vec<usize>,
}

impl Schmilblick {
    fn new() -> Self {
        Schmilblick { field1: 1, field2: String::from("foo"), field3: (2, true), field4: vec![4, 5, 6] }
    }
}

#[test]
fn new_mutex_is_free() {
    let mut m = Mutex::new(5u32);
    assert!(!m.get_lock_status());
    assert!(m.take_woken().is_empty());
    assert!(!m.is_waiting(0));
}

#[test]
fn capacity_changes_nothing_observable() {
    for len in [0usize, 1, 8, 100] {
        let mut m = Mutex::new_with_capacity(7u8, len);
        assert!(!m.get_lock_status());
        assert!(m.take_woken().is_empty());
        let g = m.try_lock().expect("free mutex");
        assert_eq!(*g.deref(), 7);
        drop(g);
        assert!(!m.get_lock_status());
    }
}

#[test]
fn try_lock_takes_a_free_mutex() {
    let m = Mutex::new(5u32);
    let mut m = m;
    {
        let g = m.try_lock();
        assert!(g.is_some());
        assert_eq!(*g.as_ref().unwrap().deref(), 5);
        std::mem::forget(g);
    }
    assert!(m.get_lock_status());
    assert!(m.try_lock().is_none());
}

#[test]
fn dropping_the_guard_releases_the_mutex() {
    let mut m = Mutex::new(5u32);
    let g = m.try_lock();
    assert!(g.is_some());
    drop(g);
    assert!(!m.get_lock_status());
    assert!(m.try_lock().is_some());
}

#[test]
fn write_in_a_scoped_guard_is_read_after_relock() {
    let mut m = Mutex::new(0i32);
    {
        let mut g = m.try_lock().unwrap();
        *g.deref_mut() += 5;
    }
    assert_eq!(*m.try_lock().unwrap().deref(), 5);
}

#[test]
fn release_frees_the_mutex() {
    let mut m = Mutex::new(1i32);
    let g = m.try_lock().expect("free mutex");
    std::mem::forget(g);
    m.release();
    assert!(!m.get_lock_status());
    assert!(m.try_lock().is_some());
}

#[test]
fn lock_future_is_ready_on_a_free_mutex() {
    let mut m = Mutex::new(10u16);
    match m.lock().poll(1) {
        LockPoll::Ready(mut g) => {
            *g.deref_mut() += 1;
        }
        LockPoll::Pending(_) => panic!("free mutex must be ready"),
    }
    assert!(!m.get_lock_status());
    assert_eq!(*m.try_lock().expect("free mutex").deref(), 11);
}

#[test]
fn pending_future_waits_in_the_queue_once() {
    let mut m = Mutex::new(10u16);
    std::mem::forget(m.try_lock().expect("free mutex"));
    let f = match m.lock().poll(7) {
        LockPoll::Pending(f) => f,
        LockPoll::Ready(_) => panic!("held mutex must be pending"),
    };
    match f.poll(7) {
        LockPoll::Pending(_) => {}
        LockPoll::Ready(_) => panic!("held mutex must stay pending"),
    }
    assert!(m.is_waiting(7));
    m.release();
    // one entry only: the release wakes 7 and nobody waits any more
    assert!(!m.is_waiting(7));
    assert_eq!(m.take_woken(), vec![7]);
    assert!(m.take_woken().is_empty());
}

#[test]
fn release_wakes_waiting_tasks_in_order() {
    let mut m = Mutex::new(0u8);
    std::mem::forget(m.try_lock().expect("free mutex"));
    for w in [3u64, 1, 2] {
        match m.lock().poll(w) {
            LockPoll::Pending(_) => {}
            LockPoll::Ready(_) => panic!("held mutex"),
        }
    }
    m.release();
    assert_eq!(m.take_woken(), vec![3]);
    // the woken task takes the mutex; dropping its guard wakes the next one
    {
        let g = m.try_lock().expect("released mutex");
        drop(g);
    }
    assert_eq!(m.take_woken(), vec![1]);
    m.release();
    m.release();
    assert_eq!(m.take_woken(), vec![2]);
}

#[test]
fn sync_lock_takes_a_free_mutex() {
    let mut m = Mutex::new(vec![1u8, 2]);
    {
        let mut g = m.sync_lock(0).ok().expect("free mutex");
        g.deref_mut().push(3);
    }
    {
        let mut g = m.sync_lock_with_time(50, 7).ok().expect("free mutex");
        assert_eq!(g.deref_mut().len(), 3);
    }
    assert!(!m.get_lock_status());
}

#[test]
fn sync_lock_on_a_held_mutex_says_how_to_wait() {
    let mut m = Mutex::new(0u8);
    std::mem::forget(m.try_lock().expect("free mutex"));
    assert_eq!(m.sync_lock_with_time(50, 0).err(), Some((WaitStep::Yield, 1)));
    assert_eq!(m.sync_lock_with_time(50, 31).err(), Some((WaitStep::Yield, 32)));
    assert_eq!(m.sync_lock_with_time(50, 32).err(), Some((WaitStep::Sleep(50), 32)));
    assert_eq!(m.sync_lock(40).err(), Some((WaitStep::Sleep(10), 40)));
    assert!(m.get_lock_status());
    m.release();
    assert!(m.sync_lock(40).is_ok());
}

#[test]
fn wait_step_yields_then_sleeps() {
    assert_eq!(wait_step(0, 10), (WaitStep::Yield, 1));
    assert_eq!(wait_step(31, 10), (WaitStep::Yield, 32));
    assert_eq!(wait_step(DEFAULT_YIELD, 10), (WaitStep::Sleep(10), 32));
    assert_eq!(wait_step(100, 7), (WaitStep::Sleep(7), 100));
}

#[test]
fn lock_error_counts_tasks() {
    let e = LockError::new(4);
    assert_eq!(e.n_tasks(), 4);
    assert_eq!(e.message(), "Error Locking Mutex, 4 other tasks in queue");
    assert_eq!(LockError::new(0).message(), "Error Locking Mutex, 0 other tasks in queue");
    assert_eq!(LockError::new(1207).message(), "Error Locking Mutex, 1207 other tasks in queue");
}

#[test]
fn guarded_updates_of_a_record() {
    let mut mtx = Mutex::new(Schmilblick::new());
    let lim: usize = 100;
    for i in 0..lim {
        let mut g = mtx.try_lock().expect("free mutex");
        g.deref_mut().field1 += 1;
        let c = char::from_u32(i as u32 % 26 + 65).unwrap();
        g.deref_mut().field2.push(c);
        g.deref_mut().field4.push(i);
    }
    let g = mtx.try_lock().expect("free mutex");
    let s = g.deref();
    assert_eq!(s.field1, 101);
    assert_eq!(s.field2.len(), 103);
    assert!(s.field2.starts_with("fooABC"));
    assert_eq!(s.field4.len(), 103);
    assert_eq!(s.field3, (2, true));
}

#[test]
fn mixed_guarded_updates_of_a_record() {
    let mut mtx = Mutex::new(Schmilblick::new());
    let lim: usize = 50;
    for j in 0..lim {
        {
            let mut g = mtx.try_lock().expect("free mutex");
            g.deref_mut().field1 += 1;
            let sz = g.deref().field4.len() - 1;
            g.deref_mut().field4[sz] = usize::MAX;
        }
        {
            let c = char::from_u32(j as u32 % 26 + 65).unwrap();
            mtx.try_lock().expect("free mutex").deref_mut().field2.push(c);
            mtx.try_lock().expect("free mutex").deref_mut().field4.pop();
        }
        {
            let mut g = mtx.try_lock().expect("free mutex");
            g.deref_mut().field4.push(j);
            let flipped = !g.deref().field3.1;
            g.deref_mut().field3.1 = flipped;
        }
    }
    let g = mtx.try_lock().expect("free mutex");
    assert_eq!(g.deref().field1, 51);
    assert_eq!(g.deref().field4.len(), 3);
    assert_eq!(g.deref().field3.1, true);
}

#[test]
fn lock_then_release_gives_back_the_same_mutex() {
    let mut m = Mutex::new_with_capacity(vec![7u8], 3);
    drop(m.try_lock().expect("free mutex"));
    assert!(!m.get_lock_status());
    assert!(m.take_woken().is_empty());
    assert_eq!(m.try_lock().expect("free mutex").deref(), &vec![7u8]);
}
