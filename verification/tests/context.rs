use actix_send::context::{deliver_delayed, ContextExit, ContextLifecycle};

#[test]
fn restart_counts_generations() {
    let mut c = ContextLifecycle::new(3);
    assert_eq!(c.on_loop_end(true, true), ContextExit::Restart);
    assert_eq!(c.on_loop_end(true, true), ContextExit::Restart);
    let s = c.state();
    assert_eq!(s.id(), 3);
    assert_eq!(s.generation(), 2);
}

#[test]
fn no_restart_without_request_or_after_shutdown() {
    let mut c = ContextLifecycle::new(0);
    assert_eq!(c.on_loop_end(true, false), ContextExit::Stop);
    assert_eq!(c.on_loop_end(false, true), ContextExit::Stop);
    assert_eq!(c.generation, 0);
}

#[test]
fn manual_shutdown_stops_for_good() {
    let mut c = ContextLifecycle::new(1);
    assert!(!c.on_manual_shutdown(false));
    assert!(!c.manual_shutdown);
    assert!(c.on_manual_shutdown(true));
    assert!(c.manual_shutdown);
    assert_eq!(c.on_loop_end(true, true), ContextExit::Stop);
}

#[test]
fn delayed_messages_on_shutdown() {
    assert!(deliver_delayed(false, false));
    assert!(deliver_delayed(false, true));
    assert!(!deliver_delayed(true, false));
    assert!(deliver_delayed(true, true));
}
