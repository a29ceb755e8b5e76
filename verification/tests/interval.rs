use actix_send::interval::IntervalFutureSet;

#[test]
fn keys_are_handed_out_in_order() {
    let mut set: IntervalFutureSet<&str> = IntervalFutureSet::new();
    assert_eq!(set.insert("a"), 0);
    assert_eq!(set.insert("b"), 1);
    set.remove(0);
    assert!(!set.contains(0));
    assert!(set.contains(1));
    assert_eq!(set.insert("c"), 2);
    assert_eq!(set.next_key(), 3);
}

#[test]
fn take_and_restore() {
    let mut set: IntervalFutureSet<u32> = IntervalFutureSet::new();
    let k = set.insert(42);
    assert_eq!(set.take(k), Some(42));
    assert!(!set.contains(k));
    assert_eq!(set.take(k), None);
    set.restore(k, 43);
    assert_eq!(set.take(k), Some(43));
}
