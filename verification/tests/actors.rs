use actix_send::actors::{Actor, Builder};

struct Legacy(u8);

impl Actor for Legacy {
    type Message = u8;
}

#[test]
fn legacy_builder() {
    let b: Builder<Legacy> = Legacy(3).build();
    assert_eq!(b.num, 1);
    let b = b.num(4);
    assert_eq!(b.num, 4);
    assert_eq!(b.actor.0, 3);
}
