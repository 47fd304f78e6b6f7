use pseudo_mutex::clodotex::ClodoTex;
use std::time::Duration;

#[test]
fn new_lock_is_free() {
    let mut t = ClodoTex::new(17i32);
    assert_eq!(t.get_wait_duration(), Duration::new(0, 0));
    assert!(t.try_lock());
    assert!(!t.try_lock());
}

#[test]
fn release_frees_the_lock() {
    let mut t = ClodoTex::new(17i32);
    assert!(t.try_lock());
    t.release();
    assert!(t.try_lock());
    t.release();
    t.release();
    assert_eq!(t.get_wait_duration(), Duration::from_nanos(0));
}

#[test]
fn beg_hands_out_the_value_once() {
    let mut t = ClodoTex::new(17i32);
    {
        let b = t.beg().expect("free lock");
        *b += 2;
    }
    assert!(t.beg().is_none());
    t.release();
    {
        let c = t.beg().expect("free lock");
        *c += 2;
        assert_eq!(*c, 21);
    }
    t.release();
}
