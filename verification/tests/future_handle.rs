use actix_send::future_handle::{CancelState, FutureHandler};

#[test]
fn cancel_wakes_the_waiting_task() {
    let mut s: CancelState<&str> = CancelState::new();
    assert!(!s.poll("w1"));
    assert!(!s.poll("w2"));
    assert_eq!(s.cancel(), Some("w2"));
    assert!(s.poll("w3"));
    assert_eq!(s.cancel(), None);
}

#[test]
fn attach_interval_key() {
    let mut h: FutureHandler<u8, &str> = FutureHandler::new(1);
    assert_eq!(*h.tx(), None);
    h.attach_tx(4, "sender");
    assert_eq!(*h.tx(), Some((4, "sender")));
    assert_eq!(*h.state(), 1);
}
