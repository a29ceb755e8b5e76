use actix_send::address::{
    delivery_result, feature_disabled, last_address_dropped, reply_outcome, subscribe_results,
    Delivery, Reply,
};
use actix_send::error::ActixSendError;

#[test]
fn subscribers_that_cannot_take_the_type_answer_typecast() {
    let answers = vec![Some(Ok(())), None, Some(Err(ActixSendError::Timeout))];
    let r = subscribe_results(answers);
    assert_eq!(r.len(), 3);
    assert!(r[0].is_ok());
    assert!(r[1].err().unwrap() == ActixSendError::TypeCast);
    assert!(r[2].err().unwrap() == ActixSendError::Timeout);
}

#[test]
fn delivery_and_replies() {
    assert!(delivery_result(Delivery::Sent).is_ok());
    assert!(delivery_result(Delivery::Closed).err().unwrap() == ActixSendError::Closed);
    assert!(delivery_result(Delivery::TimedOut).err().unwrap() == ActixSendError::Timeout);
    assert_eq!(reply_outcome(Reply::Value(8u8)).unwrap().ok(), Some(8));
    assert!(reply_outcome::<u8>(Reply::Dropped).unwrap().err().unwrap() == ActixSendError::Canceled);
    assert!(reply_outcome::<u8>(Reply::Pending).is_none());
    let v = feature_disabled::<u8>(ActixSendError::Broadcast);
    assert_eq!(v.len(), 1);
    assert!(v[0].err().unwrap() == ActixSendError::Broadcast);
}

#[test]
fn only_the_last_drop_shuts_down() {
    // Three addresses dropped one after another: the counts they find.
    let found = [3usize, 2, 1];
    let last: Vec<bool> = found.iter().map(|&n| last_address_dropped(n)).collect();
    assert_eq!(last, vec![false, false, true]);
}
