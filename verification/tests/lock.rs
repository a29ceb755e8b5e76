use actix_send::lock::{
    close_step, lock_step, CloseStep, LockStep, SimpleSpinLock, CLOSED, FREE, LOCKED,
};

#[test]
fn lock_until_closed() {
    let mut l = SimpleSpinLock::new(1u32);
    *l.lock().unwrap() += 1;
    assert_eq!(*l.lock().unwrap(), 2);
    assert!(l.close());
    assert!(l.lock().is_none());
    assert!(!l.close());
}

#[test]
fn lock_word_steps() {
    assert_eq!(lock_step(FREE), LockStep::Swap { expected: FREE, new: LOCKED });
    // A held lock is tried again until its holder frees it.
    assert_eq!(lock_step(LOCKED), LockStep::Swap { expected: FREE, new: LOCKED });
    assert_eq!(lock_step(CLOSED), LockStep::Refuse);
    assert_eq!(close_step(FREE), CloseStep::Swap { expected: FREE, new: CLOSED });
    assert_eq!(close_step(LOCKED), CloseStep::Swap { expected: FREE, new: CLOSED });
    assert_eq!(close_step(CLOSED), CloseStep::AlreadyClosed);
}
