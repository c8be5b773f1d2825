use lurk::protocol::protocol_message::{Accept, ChangeRoom, Character, Connection, Error, Fight,
    Game, Leave, Loot, LurkMessageKind, LurkMessageType, Message, PvpFight, Room, Start};
use lurk::protocol::read::LurkReadChannel;
use lurk::protocol::stream::ByteStream;

#[test]
fn test_message_pull() {
    let data = vec![
        Message::message_type(),
        4u8, 0u8,
        0u8, 0u8, 0u8, 0u8, 0u8, 0u8, 0u8, 0u8,
        0u8, 0u8, 0u8, 0u8, 0u8, 0u8, 0u8, 0u8,
        0u8, 0u8, 0u8, 0u8, 0u8, 0u8, 0u8, 0u8,
        0u8, 0u8, 0u8, 0u8, 0u8, 0u8, 0u8, 0u8,
        0u8, 0u8, 0u8, 0u8, 0u8, 0u8, 0u8, 0u8,
        0u8, 0u8, 0u8, 0u8, 0u8, 0u8, 0u8, 0u8,
        0u8, 0u8, 0u8, 0u8, 0u8, 0u8, 0u8, 0u8,
        0u8, 0u8, 0u8, 0u8, 0u8, 0u8, 0u8, 0u8,
        0u8, 0u8, 0u8, 0u8,
    ];

    let mut readable = ByteStream::new(data.clone());

    let mut channel = LurkReadChannel::new(&mut readable);

    let result = channel.read_next();

    assert!(result.is_ok());

    let (kind, extract_data) = result.unwrap();

    assert_eq!(kind, LurkMessageKind::Message);
    assert_eq!(extract_data.len(), data.len() - 1);
}

#[test]
fn test_change_room_pull() {
    let data = vec![ChangeRoom::message_type(), 0u8, 0u8];

    let mut readable = ByteStream::new(data.clone());

    let mut channel = LurkReadChannel::new(&mut readable);

    let result = channel.read_next();

    assert!(result.is_ok());

    let (kind, extract_data) = result.unwrap();

    assert_eq!(kind, LurkMessageKind::ChangeRoom);
    assert_eq!(extract_data.len(), data.len() - 1);
}

#[test]
fn test_fight_pull() {
    let data = vec![Fight::message_type()];

    let mut readable = ByteStream::new(data.clone());

    let mut channel = LurkReadChannel::new(&mut readable);

    let result = channel.read_next();

    assert!(result.is_ok());

    let (kind, extract_data) = result.unwrap();

    assert_eq!(kind, LurkMessageKind::Fight);
    assert_eq!(extract_data.len(), data.len() - 1);
}

#[test]
fn test_pvp_fight_pull() {
    let data = vec![
        PvpFight::message_type(),
        0u8, 0u8, 0u8, 0u8, 0u8, 0u8, 0u8, 0u8,
        0u8, 0u8, 0u8, 0u8, 0u8, 0u8, 0u8, 0u8,
        0u8, 0u8, 0u8, 0u8, 0u8, 0u8, 0u8, 0u8,
        0u8, 0u8, 0u8, 0u8, 0u8, 0u8, 0u8, 0u8,
    ];

    let mut readable = ByteStream::new(data.clone());

    let mut channel = LurkReadChannel::new(&mut readable);

    let result = channel.read_next();

    assert!(result.is_ok());

    let (kind, extract_data) = result.unwrap();

    assert_eq!(kind, LurkMessageKind::PvPFight);
    assert_eq!(extract_data.len(), data.len() - 1);
}

#[test]
fn test_loot_pull() {
    let data = vec![
        Loot::message_type(),
        0u8, 0u8, 0u8, 0u8, 0u8, 0u8, 0u8, 0u8,
        0u8, 0u8, 0u8, 0u8, 0u8, 0u8, 0u8, 0u8,
        0u8, 0u8, 0u8, 0u8, 0u8, 0u8, 0u8, 0u8,
        0u8, 0u8, 0u8, 0u8, 0u8, 0u8, 0u8, 0u8,
    ];

    let mut readable = ByteStream::new(data.clone());

    let mut channel = LurkReadChannel::new(&mut readable);

    let result = channel.read_next();

    assert!(result.is_ok());

    let (kind, extract_data) = result.unwrap();

    assert_eq!(kind, LurkMessageKind::Loot);
    assert_eq!(extract_data.len(), data.len() - 1);
}

#[test]
fn test_start_pull() {
    let data = vec![Start::message_type()];

    let mut readable = ByteStream::new(data.clone());

    let mut channel = LurkReadChannel::new(&mut readable);

    let result = channel.read_next();

    assert!(result.is_ok());

    let (kind, extract_data) = result.unwrap();

    assert_eq!(kind, LurkMessageKind::Start);
    assert_eq!(extract_data.len(), data.len() - 1);
}

#[test]
fn test_error_pull() {
    let data = vec![Error::message_type(), 0u8, 4u8, 0u8, 0u8, 0u8, 0u8, 0u8];

    let mut readable = ByteStream::new(data.clone());

    let mut channel = LurkReadChannel::new(&mut readable);

    let result = channel.read_next();

    assert!(result.is_ok());

    let (kind, extract_data) = result.unwrap();

    assert_eq!(kind, LurkMessageKind::Error);
    assert_eq!(extract_data.len(), data.len() - 1);
}

#[test]
fn test_accept_pull() {
    let data = vec![Accept::message_type(), 0u8];

    let mut readable = ByteStream::new(data.clone());

    let mut channel = LurkReadChannel::new(&mut readable);

    let result = channel.read_next();

    assert!(result.is_ok());

    let (kind, extract_data) = result.unwrap();

    assert_eq!(kind, LurkMessageKind::Accept);
    assert_eq!(extract_data.len(), data.len() - 1);
}

#[test]
fn test_room_pull() {
    let data = vec![
        Room::message_type(),
        0u8, 0u8,
        0u8, 0u8, 0u8, 0u8, 0u8, 0u8, 0u8, 0u8,
        0u8, 0u8, 0u8, 0u8, 0u8, 0u8, 0u8, 0u8,
        0u8, 0u8, 0u8, 0u8, 0u8, 0u8, 0u8, 0u8,
        0u8, 0u8, 0u8, 0u8, 0u8, 0u8, 0u8, 0u8,
        4u8, 0u8,
        0u8, 0u8, 0u8, 0u8,
    ];

    let mut readable = ByteStream::new(data.clone());

    let mut channel = LurkReadChannel::new(&mut readable);

    let result = channel.read_next();

    assert!(result.is_ok());

    let (kind, extract_data) = result.unwrap();

    assert_eq!(kind, LurkMessageKind::Room);
    assert_eq!(extract_data.len(), data.len() - 1);
}

#[test]
fn test_character_pull() {
    let data = vec![
        Character::message_type(),
        0u8, 0u8, 0u8, 0u8, 0u8, 0u8, 0u8, 0u8,
        0u8, 0u8, 0u8, 0u8, 0u8, 0u8, 0u8, 0u8,
        0u8, 0u8, 0u8, 0u8, 0u8, 0u8, 0u8, 0u8,
        0u8, 0u8, 0u8, 0u8, 0u8, 0u8, 0u8, 0u8,
        0u8,
        0u8, 0u8,
        0u8, 0u8,
        0u8, 0u8,
        0u8, 0u8,
        0u8, 0u8,
        0u8, 0u8,
        4u8, 0u8,
        0u8, 0u8, 0u8, 0u8,
    ];

    let mut readable = ByteStream::new(data.clone());

    let mut channel = LurkReadChannel::new(&mut readable);

    let result = channel.read_next();

    assert!(result.is_ok());

    let (kind, extract_data) = result.unwrap();

    assert_eq!(kind, LurkMessageKind::Character);
    assert_eq!(extract_data.len(), data.len() - 1);
}

#[test]
fn test_game_pull() {
    let data = vec![
        Game::message_type(),
        0u8, 0u8,
        0u8, 0u8,
        4u8, 0u8,
        0u8, 0u8, 0u8, 0u8,
    ];

    let mut readable = ByteStream::new(data.clone());

    let mut channel = LurkReadChannel::new(&mut readable);

    let result = channel.read_next();

    assert!(result.is_ok());

    let (kind, extract_data) = result.unwrap();

    assert_eq!(kind, LurkMessageKind::Game);
    assert_eq!(extract_data.len(), data.len() - 1);
}

#[test]
fn test_leave_pull() {
    let data = vec![Leave::message_type()];

    let mut readable = ByteStream::new(data.clone());

    let mut channel = LurkReadChannel::new(&mut readable);

    let result = channel.read_next();

    assert!(result.is_ok());

    let (kind, extract_data) = result.unwrap();

    assert_eq!(kind, LurkMessageKind::Leave);
    assert_eq!(extract_data.len(), data.len() - 1);
}

#[test]
fn test_connection_pull() {
    let data = vec![
        Connection::message_type(),
        0u8, 0u8,
        0u8, 0u8, 0u8, 0u8, 0u8, 0u8, 0u8, 0u8,
        0u8, 0u8, 0u8, 0u8, 0u8, 0u8, 0u8, 0u8,
        0u8, 0u8, 0u8, 0u8, 0u8, 0u8, 0u8, 0u8,
        0u8, 0u8, 0u8, 0u8, 0u8, 0u8, 0u8, 0u8,
        4u8, 0u8,
        0u8, 0u8, 0u8, 0u8,
    ];

    let mut readable = ByteStream::new(data.clone());

    let mut channel = LurkReadChannel::new(&mut readable);

    let result = channel.read_next();

    assert!(result.is_ok());

    let (kind, extract_data) = result.unwrap();

    assert_eq!(kind, LurkMessageKind::Connection);
    assert_eq!(extract_data.len(), data.len() - 1);
}

#[test]
fn read_next_rejects_unknown_kind() {
    let data = vec![0xFFu8, 0u8, 0u8];
    let mut readable = ByteStream::new(data);
    let mut channel = LurkReadChannel::new(&mut readable);
    assert!(channel.read_next().is_err());
}
