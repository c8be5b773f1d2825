use lurk::protocol::protocol_message::{Accept, ChangeRoom, Character, Connection, Error, Fight,
    Game, Leave, Loot, LurkMessageBlobify, LurkMessageParse, LurkMessageType, Message, PvpFight,
    Room, Start, ERROR_TYPE_BAD_MONSTER, ERROR_TYPE_BAD_ROOM, ERROR_TYPE_NOT_READY,
    ERROR_TYPE_NO_FIGHT, ERROR_TYPE_NO_PVP, ERROR_TYPE_NO_TARGET, ERROR_TYPE_OTHER,
    ERROR_TYPE_PLAYER_EXISTS, ERROR_TYPE_STAT_ERROR};

#[test]
fn message_new_rejects_long_fields() {
    let long_name = "x".repeat(33);
    let long_body = "y".repeat(65535);
    assert!(Message::new(String::from("hi"), long_name.clone(), String::from("b")).is_err());
    assert!(Message::new(String::from("hi"), String::from("a"), long_name.clone()).is_err());
    assert!(Message::new(long_body, String::from("a"), String::from("b")).is_err());
    assert!(Message::new(String::from("hi"), String::from("a"), String::from("b")).is_ok());
}

#[test]
fn pvp_fight_new_rejects_long_target() {
    assert!(PvpFight::new("x".repeat(33)).is_err());
    assert!(PvpFight::new("x".repeat(32)).is_ok());
}

#[test]
fn loot_new_rejects_long_target() {
    assert!(Loot::new("x".repeat(33)).is_err());
    assert!(Loot::new("x".repeat(32)).is_ok());
}

#[test]
fn error_new_rejects_long_text() {
    assert!(Error::new(0, "x".repeat(65535)).is_err());
    assert!(Error::new(0, "x".repeat(65534)).is_ok());
}

#[test]
fn room_new_rejects_bad_fields() {
    assert!(Room::new(1, "x".repeat(33), String::from("d")).is_err());
    assert!(Room::new(1, String::from("n"), "x".repeat(65535)).is_err());
    assert!(Room::new(1, String::from("n"), String::from("d")).is_ok());
}

#[test]
fn connection_new_rejects_bad_fields() {
    assert!(Connection::new(1, "x".repeat(33), String::from("d")).is_err());
    assert!(Connection::new(1, String::from("n"), "x".repeat(65535)).is_err());
    assert!(Connection::new(1, String::from("n"), String::from("d")).is_ok());
}

#[test]
fn character_new_rejects_bad_fields() {
    assert!(Character::new(
        "x".repeat(33),
        true,
        true,
        false,
        false,
        true,
        1,
        2,
        3,
        4,
        5,
        6,
        String::from("d")
    )
    .is_err());
    assert!(Character::new(
        String::from("n"),
        true,
        true,
        false,
        false,
        true,
        1,
        2,
        3,
        4,
        5,
        6,
        "x".repeat(65535)
    )
    .is_err());
}

#[test]
fn game_new_rejects_long_description() {
    assert!(Game::new(1, 2, "x".repeat(65535)).is_err());
    assert!(Game::new(1, 2, "x".repeat(65534)).is_ok());
}

#[test]
fn error_named_constructors_carry_their_codes() {
    let text = || String::from("t");
    assert_eq!(Error::other(text()).unwrap().error_code, ERROR_TYPE_OTHER);
    assert_eq!(Error::bad_room(text()).unwrap().error_code, ERROR_TYPE_BAD_ROOM);
    assert_eq!(Error::player_exists(text()).unwrap().error_code, ERROR_TYPE_PLAYER_EXISTS);
    assert_eq!(Error::bad_monster(text()).unwrap().error_code, ERROR_TYPE_BAD_MONSTER);
    assert_eq!(Error::stat_error(text()).unwrap().error_code, ERROR_TYPE_STAT_ERROR);
    assert_eq!(Error::not_ready(text()).unwrap().error_code, ERROR_TYPE_NOT_READY);
    assert_eq!(Error::no_target(text()).unwrap().error_code, ERROR_TYPE_NO_TARGET);
    assert_eq!(Error::no_fight(text()).unwrap().error_code, ERROR_TYPE_NO_FIGHT);
    assert_eq!(Error::no_pvp(text()).unwrap().error_code, ERROR_TYPE_NO_PVP);
}

#[test]
fn message_type_constants_match_tags() {
    assert_eq!(Message::message_type(), 1);
    assert_eq!(ChangeRoom::message_type(), 2);
    assert_eq!(Fight::message_type(), 3);
    assert_eq!(PvpFight::message_type(), 4);
    assert_eq!(Loot::message_type(), 5);
    assert_eq!(Start::message_type(), 6);
    assert_eq!(Error::message_type(), 7);
    assert_eq!(Accept::message_type(), 8);
    assert_eq!(Room::message_type(), 9);
    assert_eq!(Character::message_type(), 10);
    assert_eq!(Game::message_type(), 11);
    assert_eq!(Leave::message_type(), 12);
    assert_eq!(Connection::message_type(), 13);
}

#[test]
fn parse_rejects_truncated_payloads() {
    assert!(ChangeRoom::parse_lurk_message(&[0x08u8]).is_err());
    assert!(PvpFight::parse_lurk_message(&[0u8; 31]).is_err());
    assert!(Error::parse_lurk_message(&[0x06u8, 0x03, 0x00]).is_err());
    assert!(Accept::parse_lurk_message(&[]).is_err());
    assert!(Room::parse_lurk_message(&[0u8; 35]).is_err());
    assert!(Character::parse_lurk_message(&[0u8; 44]).is_err());
    assert!(Game::parse_lurk_message(&[0u8; 5]).is_err());
    assert!(Message::parse_lurk_message(&[0x01u8, 0x00]).is_err());
}
