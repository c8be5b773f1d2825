use lurk::protocol::protocol_message::LurkMessageKind;

#[test]
fn it_works() {}

#[test]
fn from_code_names_every_kind() {
    assert_eq!(LurkMessageKind::from_code(1), Ok(LurkMessageKind::Message));
    assert_eq!(LurkMessageKind::from_code(2), Ok(LurkMessageKind::ChangeRoom));
    assert_eq!(LurkMessageKind::from_code(3), Ok(LurkMessageKind::Fight));
    assert_eq!(LurkMessageKind::from_code(4), Ok(LurkMessageKind::PvPFight));
    assert_eq!(LurkMessageKind::from_code(5), Ok(LurkMessageKind::Loot));
    assert_eq!(LurkMessageKind::from_code(6), Ok(LurkMessageKind::Start));
    assert_eq!(LurkMessageKind::from_code(7), Ok(LurkMessageKind::Error));
    assert_eq!(LurkMessageKind::from_code(8), Ok(LurkMessageKind::Accept));
    assert_eq!(LurkMessageKind::from_code(9), Ok(LurkMessageKind::Room));
    assert_eq!(LurkMessageKind::from_code(10), Ok(LurkMessageKind::Character));
    assert_eq!(LurkMessageKind::from_code(11), Ok(LurkMessageKind::Game));
    assert_eq!(LurkMessageKind::from_code(12), Ok(LurkMessageKind::Leave));
    assert_eq!(LurkMessageKind::from_code(13), Ok(LurkMessageKind::Connection));
    assert_eq!(LurkMessageKind::from_code(0), Err(()));
    assert_eq!(LurkMessageKind::from_code(14), Err(()));
    assert_eq!(LurkMessageKind::from_code(0xFF), Err(()));
}

#[test]
fn direction_rules() {
    let server_side = [
        LurkMessageKind::Message,
        LurkMessageKind::ChangeRoom,
        LurkMessageKind::Fight,
        LurkMessageKind::PvPFight,
        LurkMessageKind::Loot,
        LurkMessageKind::Start,
        LurkMessageKind::Character,
        LurkMessageKind::Leave,
    ];
    let client_side = [
        LurkMessageKind::Message,
        LurkMessageKind::Error,
        LurkMessageKind::Accept,
        LurkMessageKind::Character,
        LurkMessageKind::Game,
        LurkMessageKind::Connection,
    ];
    for k in server_side.iter() {
        assert!(k.is_server_recipient());
        assert!(k.is_client_sendable());
    }
    for k in client_side.iter() {
        assert!(k.is_client_recipient());
        assert!(k.is_server_sendable());
    }
    assert!(!LurkMessageKind::Error.is_server_recipient());
    assert!(!LurkMessageKind::Game.is_server_recipient());
    assert!(!LurkMessageKind::Leave.is_client_recipient());
    assert!(!LurkMessageKind::Fight.is_client_recipient());
}
