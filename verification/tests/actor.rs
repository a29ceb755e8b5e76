use actix_send::actor::{current_active, is_running, modify_active, shutdown, ActiveChange};

fn change(word: usize, c: ActiveChange) -> Option<usize> {
    modify_active(word, c)
}

#[test]
fn active_count() {
    // Eight actors start, three are closed one by one.
    let mut word = 0usize;
    for _ in 0..8 {
        word = change(word, ActiveChange::Inc).unwrap();
    }
    assert_eq!(current_active(word), 8);
    for _ in 0..3 {
        word = change(word, ActiveChange::Dec).unwrap();
    }
    assert_eq!(current_active(word), 5);
    assert!(is_running(word));
}

#[test]
fn shutdown_freezes_the_count() {
    let word = change(change(0, ActiveChange::Inc).unwrap(), ActiveChange::Inc).unwrap();
    let shut = shutdown(word);
    assert_eq!(current_active(shut), 2);
    assert!(!is_running(shut));
    assert_eq!(change(shut, ActiveChange::Inc), None);
    assert_eq!(change(shut, ActiveChange::Dec), None);
    assert_eq!(shutdown(shut), shut);
}

#[test]
fn inc_dec_roundtrip() {
    let w = 6usize;
    assert_eq!(change(change(w, ActiveChange::Inc).unwrap(), ActiveChange::Dec), Some(w));
    assert_eq!(change(w, ActiveChange::Inc), Some(8));
}
