use bytes::BytesMut;
use lurk::protocol::codec::LurkMessageCodec;
use lurk::protocol::protocol_message::{Accept, ChangeRoom, Character, Error, Fight, Game, Leave,
    LurkMessage, LurkMessageBlobify, LurkMessageParse, Message, PvpFight, Room, Start};
use lurk::protocol::send::LurkSendChannel;

fn message_scenario_bytes() -> Vec<u8> {
    let mut expected = vec![0x01u8, 0x05, 0x00];
    expected.extend_from_slice(b"reci");
    expected.extend_from_slice(&[0u8; 28]);
    expected.extend_from_slice(b"send");
    expected.extend_from_slice(&[0u8; 28]);
    expected.extend_from_slice(b"hello");
    expected
}

fn character_scenario() -> (Character, Vec<u8>) {
    let character = Character::new(
        String::from("play"),
        true,
        false,
        true,
        false,
        true,
        0x00F0,
        0x000F,
        0x00AA,
        0x00FF,
        0x00FF,
        3,
        String::from("hell"),
    )
    .unwrap();

    let mut expected = vec![0x0Au8];
    expected.extend_from_slice(b"play");
    expected.extend_from_slice(&[0u8; 28]);
    expected.push(0b10101000);
    expected.extend_from_slice(&[0xF0, 0x00, 0x0F, 0x00, 0xAA, 0x00, 0xFF, 0x00, 0xFF, 0x00, 0x03, 0x00]);
    expected.extend_from_slice(&[0x04, 0x00]);
    expected.extend_from_slice(b"hell");
    (character, expected)
}

#[test]
fn message_scenario_round_trip() {
    let message = Message::new(
        String::from("hello"),
        String::from("send"),
        String::from("reci"),
    )
    .unwrap();

    let blob = message.produce_lurk_message_blob();
    let expected = message_scenario_bytes();
    assert_eq!(blob.len(), 72);
    assert_eq!(blob, expected);

    let (decoded, consumed) = Message::parse_lurk_message(&blob[1..]).unwrap();
    assert_eq!(consumed, 71);
    assert_eq!(decoded.message, "hello");
    assert_eq!(decoded.sender, "send");
    assert_eq!(decoded.receiver, "reci");
}

#[test]
fn change_room_scenario_round_trip() {
    let change_room = ChangeRoom::new(8);
    let blob = change_room.produce_lurk_message_blob();
    assert_eq!(blob, vec![0x02u8, 0x08, 0x00]);

    let (decoded, consumed) = ChangeRoom::parse_lurk_message(&blob[1..]).unwrap();
    assert_eq!(consumed, 2);
    assert_eq!(decoded.room_number, 8);

    let mut codec = LurkMessageCodec;
    let mut buffer = BytesMut::from(&blob[..]);
    let out = codec.decode(&mut buffer).unwrap().unwrap();
    match out {
        LurkMessage::ChangeRoom(m) => assert_eq!(m.room_number, 8),
        _ => panic!("wrong kind decoded"),
    }
    assert_eq!(buffer.len(), 0);
}

#[test]
fn character_flags_scenario() {
    let (character, expected) = character_scenario();
    let blob = character.produce_lurk_message_blob();
    assert_eq!(blob, expected);

    let (decoded, consumed) = Character::parse_lurk_message(&blob[1..]).unwrap();
    assert_eq!(consumed, blob.len() - 1);
    assert_eq!(decoded.player_name, "play");
    assert!(decoded.is_alive);
    assert!(!decoded.join_battles);
    assert!(decoded.is_monster);
    assert!(!decoded.is_started);
    assert!(decoded.is_ready);
    assert_eq!(decoded.attack, 0x00F0);
    assert_eq!(decoded.defense, 0x000F);
    assert_eq!(decoded.regeneration, 0x00AA);
    assert_eq!(decoded.health, 0x00FF);
    assert_eq!(decoded.gold, 0x00FF);
    assert_eq!(decoded.current_room_number, 3);
    assert_eq!(decoded.description, "hell");
}

#[test]
fn error_decode_scenario() {
    let data = vec![0x07u8, 0x06, 0x03, 0x00, b'c', b'a', b't'];

    let (decoded, consumed) = Error::parse_lurk_message(&data[1..]).unwrap();
    assert_eq!(consumed, 6);
    assert_eq!(decoded.error_code, 6);
    assert_eq!(decoded.error_message, "cat");

    let mut codec = LurkMessageCodec;
    let mut buffer = BytesMut::from(&data[..]);
    let out = codec.decode(&mut buffer).unwrap().unwrap();
    match out {
        LurkMessage::Error(m) => {
            assert_eq!(m.error_code, 6);
            assert_eq!(m.error_message, "cat");
        },
        _ => panic!("wrong kind decoded"),
    }
    assert_eq!(buffer.len(), 0);
}

#[test]
fn unknown_kind_is_fatal() {
    let data = vec![0xFFu8, 0x01, 0x02];
    let mut codec = LurkMessageCodec;
    let mut buffer = BytesMut::from(&data[..]);
    assert!(codec.decode(&mut buffer).is_err());
    assert_eq!(&buffer[..], &data[..]);
}

#[test]
fn partial_buffers_decode_to_nothing() {
    let (character, _) = character_scenario();
    let blob = character.produce_lurk_message_blob();

    let mut codec = LurkMessageCodec;
    for i in 0..blob.len() {
        let mut buffer = BytesMut::from(&blob[..i]);
        let step = codec.decode(&mut buffer);
        match step {
            Ok(None) => {},
            _ => panic!("a proper prefix must decode to nothing"),
        }
        assert_eq!(&buffer[..], &blob[..i], "a proper prefix must not be consumed");
    }

    let mut buffer = BytesMut::from(&blob[..]);
    let out = codec.decode(&mut buffer).unwrap();
    assert!(out.is_some());
    assert_eq!(buffer.len(), 0);
}

#[test]
fn encode_then_decode_gives_back_the_message() {
    let room = Room::new(7, String::from("cave"), String::from("a dark cave")).unwrap();
    let mut codec = LurkMessageCodec;
    let mut buffer = BytesMut::new();
    codec.encode(LurkMessage::Room(room), &mut buffer).unwrap();

    let out = codec.decode(&mut buffer).unwrap().unwrap();
    match out {
        LurkMessage::Room(m) => {
            assert_eq!(m.room_number, 7);
            assert_eq!(m.room_name, "cave");
            assert_eq!(m.room_description, "a dark cave");
        },
        _ => panic!("wrong kind decoded"),
    }
    assert_eq!(buffer.len(), 0);
}

#[test]
fn decode_walks_back_to_back_frames() {
    let mut codec = LurkMessageCodec;
    let mut buffer = BytesMut::new();
    codec.encode(LurkMessage::ChangeRoom(ChangeRoom::new(1)), &mut buffer).unwrap();
    codec.encode(LurkMessage::Fight(Fight::new()), &mut buffer).unwrap();
    codec.encode(LurkMessage::Accept(Accept::new(5)), &mut buffer).unwrap();

    match codec.decode(&mut buffer).unwrap().unwrap() {
        LurkMessage::ChangeRoom(m) => assert_eq!(m.room_number, 1),
        _ => panic!("wrong first frame"),
    }
    match codec.decode(&mut buffer).unwrap().unwrap() {
        LurkMessage::Fight(_) => {},
        _ => panic!("wrong second frame"),
    }
    match codec.decode(&mut buffer).unwrap().unwrap() {
        LurkMessage::Accept(m) => assert_eq!(m.action_type, 5),
        _ => panic!("wrong third frame"),
    }
    assert!(codec.decode(&mut buffer).unwrap().is_none());
}

#[test]
fn decode_rejects_invalid_utf8_in_name() {
    let mut data = vec![0x04u8];
    data.extend_from_slice(&[0xC3u8, 0x28u8]);
    data.extend_from_slice(&[0u8; 30]);
    let mut codec = LurkMessageCodec;
    let mut buffer = BytesMut::from(&data[..]);
    assert!(codec.decode(&mut buffer).is_err());
    assert_eq!(buffer.len(), 0, "the malformed frame is consumed");
}

#[test]
fn send_channel_appends_whole_frames() {
    let mut sink: Vec<u8> = vec![];
    let mut channel = LurkSendChannel::new(&mut sink);
    channel.write_message(&ChangeRoom::new(8)).unwrap();
    channel.write_message(&Leave::new()).unwrap();
    assert_eq!(sink, vec![0x02u8, 0x08, 0x00, 0x0C]);
}

#[test]
fn empty_messages_encode_to_one_byte() {
    assert_eq!(Fight::new().produce_lurk_message_blob(), vec![0x03u8]);
    assert_eq!(Start::new().produce_lurk_message_blob(), vec![0x06u8]);
    assert_eq!(Leave::new().produce_lurk_message_blob(), vec![0x0Cu8]);
}

#[test]
fn game_encodes_exact_layout() {
    let game = Game::new(0xFF00, 0x00FF, String::from("game")).unwrap();
    let blob = game.produce_lurk_message_blob();
    let mut expected = vec![0x0Bu8, 0x00, 0xFF, 0xFF, 0x00, 0x04, 0x00];
    expected.extend_from_slice(b"game");
    assert_eq!(blob, expected);

    let (decoded, consumed) = Game::parse_lurk_message(&blob[1..]).unwrap();
    assert_eq!(consumed, blob.len() - 1);
    assert_eq!(decoded.initial_points, 0xFF00);
    assert_eq!(decoded.stat_limit, 0x00FF);
    assert_eq!(decoded.description, "game");
}

#[test]
fn fixed_string_with_embedded_nul_loses_tail() {
    let pvp = PvpFight::new(String::from("ab\0cd")).unwrap();
    let blob = pvp.produce_lurk_message_blob();
    let (decoded, _) = PvpFight::parse_lurk_message(&blob[1..]).unwrap();
    assert_eq!(decoded.target, "ab");
}
