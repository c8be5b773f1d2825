use lurk::protocol::protocol_message::{ChangeRoom, Leave, LurkMessage};
use lurk::server::client_session::ClientSession;
use lurk::util::{BitField, ResultChainChecker, ResultLinkChecker};

#[test]
fn bit_field_set_get_clear() {
    let mut field = BitField { field: 0 };
    field.set(7);
    field.set(3);
    assert!(field.get(7));
    assert!(field.get(3));
    assert!(!field.get(5));
    assert_eq!(field.field, 0b10001000);

    field.clear(7);
    assert!(!field.get(7));
    assert_eq!(field.field, 0b00001000);

    field.configure(5, true);
    field.configure(3, false);
    assert_eq!(field.field, 0b00100000);
}

#[test]
fn result_chain_checker_records_any_error() {
    let ok: Result<u8, ()> = Ok(1);
    let bad: Result<u8, ()> = Err(());

    let mut checker = ResultChainChecker::new();
    checker.check(&ok).check(&ok);
    assert!(checker.success());

    checker.check(&bad);
    assert!(!checker.success());

    checker.check(&ok);
    assert!(!checker.success());
}

#[test]
fn session_pending_queue_is_fifo() {
    let mut session = ClientSession::new();
    session.enqueue_message(LurkMessage::ChangeRoom(ChangeRoom::new(4)));
    session.enqueue_message(LurkMessage::Leave(Leave::new()));

    match session.next_pending() {
        Some(LurkMessage::ChangeRoom(m)) => assert_eq!(m.room_number, 4),
        _ => panic!("wrong pending order"),
    }
    match session.next_pending() {
        Some(LurkMessage::Leave(_)) => {}
        _ => panic!("wrong pending order"),
    }
    assert!(session.next_pending().is_none());
}
