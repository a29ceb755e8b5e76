use actix_send::error::ActixSendError;

#[test]
fn error_texts() {
    let e = ActixSendError::Closed;
    assert_eq!(e.cause(), "Closed");
    assert_eq!(e.description(), "Actor's message channel is closed");
    assert_eq!(
        ActixSendError::TypeCast.debug_string(),
        "ActixSendError { cause: \"TypeCast\", description: \"Failed to downcast from dyn Any to a concrete type\" }"
    );
}

#[test]
fn conversions_from_channel_errors() {
    let (tx, rx) = tokio::sync::oneshot::channel::<u8>();
    drop(tx);
    let err = rx.blocking_recv().unwrap_err();
    assert!(ActixSendError::from(err) == ActixSendError::Canceled);

    let (tx, rx) = async_channel::unbounded::<u8>();
    drop(rx);
    let err = tx.try_send(1).err().unwrap();
    match err {
        async_channel::TrySendError::Closed(m) => {
            let e: ActixSendError = async_channel::SendError(m).into();
            assert!(e == ActixSendError::Closed);
        }
        _ => unreachable!(),
    }
}

#[test]
fn every_error_has_its_texts() {
    let all = [
        (ActixSendError::Canceled, "Canceled", "Oneshot channel is closed before we send anything through it"),
        (ActixSendError::Closed, "Closed", "Actor's message channel is closed"),
        (ActixSendError::Timeout, "Timeout", "Could not process the message in time"),
        (ActixSendError::Blocking, "Blocking", "Failed to run blocking code"),
        (ActixSendError::TypeCast, "TypeCast", "Failed to downcast from dyn Any to a concrete type"),
        (ActixSendError::Subscribe, "Subscribe", "This address can not be subscribed"),
        (ActixSendError::Broadcast, "Broadcast", "This address can not broadcasting"),
    ];
    for (e, cause, description) in all {
        assert_eq!(e.cause(), cause);
        assert_eq!(e.description(), description);
        assert_eq!(
            e.debug_string(),
            format!("ActixSendError {{ cause: \"{}\", description: \"{}\" }}", cause, description)
        );
    }
}

#[test]
fn display_is_the_debug_text_in_parentheses() {
    let e = ActixSendError::Timeout;
    assert_eq!(
        e.display_string(),
        "(ActixSendError { cause: \"Timeout\", description: \"Could not process the message in time\" })"
    );
    assert_eq!(e.display_string(), format!("({})", e.debug_string()));
}
