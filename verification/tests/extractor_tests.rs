use lurk::protocol::extractor::extract_message;
use lurk::protocol::protocol_message::{LurkMessageFrame, ACCEPT_TYPE, CHANGE_ROOM_TYPE,
    CHARACTER_TYPE, CONNECTION_TYPE, ERROR_TYPE, FIGHT_TYPE, GAME_TYPE, LEAVE_TYPE, LOOT_TYPE,
    MESSAGE_TYPE, PVP_FIGHT_TYPE, ROOM_TYPE, START_TYPE};
use lurk::protocol::stream::ByteStream;

#[test]
fn extractor_test_message_extraction() {
    let data = vec![
        MESSAGE_TYPE,
        0x05, 0x00, // MESSAGE len
        'r' as u8, 'e' as u8, 'c' as u8, 'i' as u8, // Recipient
        0x00, 0x00, 0x00, 0x00,
        0x00, 0x00, 0x00, 0x00,
        0x00, 0x00, 0x00, 0x00,
        0x00, 0x00, 0x00, 0x00,
        0x00, 0x00, 0x00, 0x00,
        0x00, 0x00, 0x00, 0x00,
        0x00, 0x00, 0x00, 0x00,
        's' as u8, 'e' as u8, 'n' as u8, 'd' as u8, // Sender
        0x00, 0x00, 0x00, 0x00,
        0x00, 0x00, 0x00, 0x00,
        0x00, 0x00, 0x00, 0x00,
        0x00, 0x00, 0x00, 0x00,
        0x00, 0x00, 0x00, 0x00,
        0x00, 0x00, 0x00, 0x00,
        0x00, 0x00, 0x00, 0x00,
        'h' as u8, 'e' as u8, 'l' as u8, 'l' as u8, 'o' as u8, // MESSAGE
    ];

    let mut reader = ByteStream::new(data.clone());

    let frame = extract_message(&mut reader).unwrap();

    let expected_frame = LurkMessageFrame::new(MESSAGE_TYPE, data[1..data.len()].to_vec());

    assert_eq!(expected_frame, frame);
}

#[test]
fn extractor_test_change_room_extraction() {
    let data = vec![CHANGE_ROOM_TYPE, 0x08_u8, 0x00_u8];

    let mut reader = ByteStream::new(data.clone());

    let frame = extract_message(&mut reader).unwrap();

    let expected_frame = LurkMessageFrame::new(CHANGE_ROOM_TYPE, data[1..data.len()].to_vec());

    assert_eq!(expected_frame, frame);
}

#[test]
fn extractor_test_fight_extraction() {
    let data = vec![FIGHT_TYPE];

    let mut reader = ByteStream::new(data.clone());

    let frame = extract_message(&mut reader).unwrap();

    let expected_frame = LurkMessageFrame::new(FIGHT_TYPE, vec![]);

    assert_eq!(expected_frame, frame);
}

#[test]
fn extractor_test_pvp_fight_extraction() {
    let data = vec![
        PVP_FIGHT_TYPE,
        't' as u8, 'a' as u8, 'r' as u8, 'g' as u8,
        0x00, 0x00, 0x00, 0x00,
        0x00, 0x00, 0x00, 0x00,
        0x00, 0x00, 0x00, 0x00,
        0x00, 0x00, 0x00, 0x00,
        0x00, 0x00, 0x00, 0x00,
        0x00, 0x00, 0x00, 0x00,
        0x00, 0x00, 0x00, 0x00,
    ];

    let mut reader = ByteStream::new(data.clone());

    let frame = extract_message(&mut reader).unwrap();

    let expected_frame = LurkMessageFrame::new(PVP_FIGHT_TYPE, data[1..data.len()].to_vec());

    assert_eq!(expected_frame, frame);
}

#[test]
fn extractor_test_loot_extraction() {
    let data = vec![
        LOOT_TYPE,
        'l' as u8, 'o' as u8, 'o' as u8, 't' as u8,
        0x00, 0x00, 0x00, 0x00,
        0x00, 0x00, 0x00, 0x00,
        0x00, 0x00, 0x00, 0x00,
        0x00, 0x00, 0x00, 0x00,
        0x00, 0x00, 0x00, 0x00,
        0x00, 0x00, 0x00, 0x00,
        0x00, 0x00, 0x00, 0x00,
    ];

    let mut reader = ByteStream::new(data.clone());

    let frame = extract_message(&mut reader).unwrap();

    let expected_frame = LurkMessageFrame::new(LOOT_TYPE, data[1..data.len()].to_vec());

    assert_eq!(expected_frame, frame);
}

#[test]
fn extractor_test_start_extraction() {
    let data = vec![START_TYPE];

    let mut reader = ByteStream::new(data.clone());

    let frame = extract_message(&mut reader).unwrap();

    let expected_frame = LurkMessageFrame::new(START_TYPE, vec![]);

    assert_eq!(expected_frame, frame);
}

#[test]
fn extractor_test_error_extraction() {
    let data = vec![ERROR_TYPE, 0x06, 0x03, 0x00, 'c' as u8, 'a' as u8, 't' as u8];

    let mut reader = ByteStream::new(data.clone());

    let frame = extract_message(&mut reader).unwrap();

    let expected_frame = LurkMessageFrame::new(ERROR_TYPE, data[1..data.len()].to_vec());

    assert_eq!(expected_frame, frame);
}

#[test]
fn extractor_test_accept_extraction() {
    let data = vec![ACCEPT_TYPE, 0x05u8];

    let mut reader = ByteStream::new(data.clone());

    let frame = extract_message(&mut reader).unwrap();

    let expected_frame = LurkMessageFrame::new(ACCEPT_TYPE, data[1..data.len()].to_vec());

    assert_eq!(expected_frame, frame);
}

#[test]
fn extractor_test_room_extraction() {
    let data = vec![
        ROOM_TYPE,
        0x08, 0x00,
        'r' as u8, 'o' as u8, 'o' as u8, 'm' as u8,
        0x00, 0x00, 0x00, 0x00,
        0x00, 0x00, 0x00, 0x00,
        0x00, 0x00, 0x00, 0x00,
        0x00, 0x00, 0x00, 0x00,
        0x00, 0x00, 0x00, 0x00,
        0x00, 0x00, 0x00, 0x00,
        0x00, 0x00, 0x00, 0x00,
        0x04, 0x00,
        'h' as u8, 'e' as u8, 'l' as u8, 'l' as u8,
    ];

    let mut reader = ByteStream::new(data.clone());

    let frame = extract_message(&mut reader).unwrap();

    let expected_frame = LurkMessageFrame::new(ROOM_TYPE, data[1..data.len()].to_vec());

    assert_eq!(expected_frame, frame);
}

#[test]
fn extractor_test_character_extraction() {
    let data = vec![
        CHARACTER_TYPE,
        'p' as u8, 'l' as u8, 'a' as u8, 'y' as u8, 0x00, 0x00, 0x00, 0x00, // name
        0x00, 0x00, 0x00, 0x00, 0x00, 0x00, 0x00, 0x00,
        0x00, 0x00, 0x00, 0x00, 0x00, 0x00, 0x00, 0x00,
        0x00, 0x00, 0x00, 0x00, 0x00, 0x00, 0x00, 0x00,
        0b10101010, // flags
        0xF0, 0x00, // attack
        0x0F, 0x00, // def
        0xAA, 0x00, // regen
        0xFF, 0x00, // health
        0xFF, 0x00, // gold
        0x03, 0x00, // room number
        0x04, 0x00, // description
        'h' as u8, 'e' as u8, 'l' as u8, 'l' as u8,
    ];

    let mut reader = ByteStream::new(data.clone());

    let frame = extract_message(&mut reader).unwrap();

    let expected_frame = LurkMessageFrame::new(CHARACTER_TYPE, data[1..data.len()].to_vec());

    assert_eq!(expected_frame, frame);
}

#[test]
fn extractor_test_game_extraction() {
    let data = vec![
        GAME_TYPE,
        0x00, 0xFF, // init points
        0xFF, 0x00, // stat limit
        0x04, 0x00,
        'g' as u8, 'a' as u8, 'm' as u8, 'e' as u8,
    ];

    let mut reader = ByteStream::new(data.clone());

    let frame = extract_message(&mut reader).unwrap();

    let expected_frame = LurkMessageFrame::new(GAME_TYPE, data[1..data.len()].to_vec());

    assert_eq!(expected_frame, frame);
}

#[test]
fn extractor_test_leave_extraction() {
    let data = vec![LEAVE_TYPE];

    let mut reader = ByteStream::new(data.clone());

    let frame = extract_message(&mut reader).unwrap();

    let expected_frame = LurkMessageFrame::new(LEAVE_TYPE, vec![]);

    assert_eq!(expected_frame, frame);
}

#[test]
fn extractor_test_connection_extraction() {
    let data = vec![
        CONNECTION_TYPE,
        0x03, 0x00, // room number
        'r' as u8, 'o' as u8, 'o' as u8, 'm' as u8, 0x00, 0x00, 0x00, 0x00, // name
        0x00, 0x00, 0x00, 0x00, 0x00, 0x00, 0x00, 0x00,
        0x00, 0x00, 0x00, 0x00, 0x00, 0x00, 0x00, 0x00,
        0x00, 0x00, 0x00, 0x00, 0x00, 0x00, 0x00, 0x00,
        0x04, 0x00, // description
        'h' as u8, 'e' as u8, 'l' as u8, 'l' as u8,
    ];

    let mut reader = ByteStream::new(data.clone());

    let frame = extract_message(&mut reader).unwrap();

    let expected_frame = LurkMessageFrame::new(CONNECTION_TYPE, data[1..data.len()].to_vec());

    assert_eq!(expected_frame, frame);
}

#[test]
fn extractor_rejects_unknown_type_byte() {
    let data = vec![0xFFu8, 0x00u8];
    let mut reader = ByteStream::new(data);
    assert!(extract_message(&mut reader).is_err());
}
