//! Whole-frame extraction from a byte stream: one type byte, then exactly
//! the payload bytes that the kind's layout announces, returned as a raw
//! frame.

use vstd::prelude::*;

use crate::protocol::protocol_message::{
    LurkMessageFrame, LurkMessageType, Accept, ChangeRoom, Character, Connection, Error, Fight,
    Game, Leave, Loot, Message, PvpFight, Room, Start, ACCEPT_TYPE, CHANGE_ROOM_TYPE,
    CHARACTER_TYPE, CONNECTION_TYPE, ERROR_TYPE, FIGHT_TYPE, GAME_TYPE, LEAVE_TYPE, LOOT_TYPE,
    MESSAGE_TYPE, NAME_LENGTH, PVP_FIGHT_TYPE, ROOM_TYPE, START_TYPE,
};
use crate::protocol::primitive_parse::parse_u16l;
use crate::protocol::stream::ByteStream;
use crate::protocol::wire::{lemma_take_skip_concat, u16_of};

verus! {

/// How many payload bytes a frame of the given kind takes from the front of
/// `input` (the bytes after the type byte), or nothing when the input does
/// not yet hold the whole frame or the code names no kind.
pub open spec fn frame_payload_len(code: u8, input: Seq<u8>) -> Option<int> {
    if code == MESSAGE_TYPE {
        if 66 <= input.len() && 66 + u16_of(input[0], input[1]) <= input.len() {
            Some(66 + u16_of(input[0], input[1]) as int)
        } else {
            None
        }
    } else if code == CHANGE_ROOM_TYPE {
        if 2 <= input.len() {
            Some(2int)
        } else {
            None
        }
    } else if code == FIGHT_TYPE || code == START_TYPE || code == LEAVE_TYPE {
        Some(0int)
    } else if code == PVP_FIGHT_TYPE || code == LOOT_TYPE {
        if 32 <= input.len() {
            Some(32int)
        } else {
            None
        }
    } else if code == ERROR_TYPE {
        if 3 <= input.len() && 3 + u16_of(input[1], input[2]) <= input.len() {
            Some(3 + u16_of(input[1], input[2]) as int)
        } else {
            None
        }
    } else if code == ACCEPT_TYPE {
        if 1 <= input.len() {
            Some(1int)
        } else {
            None
        }
    } else if code == ROOM_TYPE || code == CONNECTION_TYPE {
        if 36 <= input.len() && 36 + u16_of(input[34], input[35]) <= input.len() {
            Some(36 + u16_of(input[34], input[35]) as int)
        } else {
            None
        }
    } else if code == CHARACTER_TYPE {
        if 47 <= input.len() && 47 + u16_of(input[45], input[46]) <= input.len() {
            Some(47 + u16_of(input[45], input[46]) as int)
        } else {
            None
        }
    } else if code == GAME_TYPE {
        if 6 <= input.len() && 6 + u16_of(input[4], input[5]) <= input.len() {
            Some(6 + u16_of(input[4], input[5]) as int)
        } else {
            None
        }
    } else {
        None
    }
}

/// Reads exactly `amount` bytes off the stream.
pub fn read_bytes(source: &mut ByteStream, amount: usize) -> (r: Result<Vec<u8>, ()>)
    requires
        old(source).wf(),
    ensures
        final(source).wf(),
        final(source).buf() == old(source).buf(),
        if amount <= old(source).rest().len() {
            &&& r matches Ok(v) && v@ == old(source).rest().take(amount as int)
            &&& final(source).position() == old(source).position() + amount
        } else {
            &&& r is Err
            &&& final(source).position() == old(source).position()
        },
{
    source.read_exact(amount)
}

/// Reads a u16 length descriptor and then the announced bytes; the returned
/// block keeps the descriptor.
pub fn read_var_bytes(source: &mut ByteStream) -> (r: Result<Vec<u8>, ()>)
    requires
        old(source).wf(),
    ensures
        final(source).wf(),
        final(source).buf() == old(source).buf(),
        final(source).position() >= old(source).position(),
        if 2 <= old(source).rest().len() && 2 + u16_of(old(source).rest()[0], old(source).rest()[1])
            <= old(source).rest().len() {
            &&& r matches Ok(v) && v@ == old(source).rest().take(
                2 + u16_of(old(source).rest()[0], old(source).rest()[1]) as int,
            )
            &&& final(source).position() == old(source).position() + 2 + u16_of(
                old(source).rest()[0],
                old(source).rest()[1],
            )
        } else {
            r is Err
        },
{
    let len_desc_bytes = match read_bytes(source, 2) {
        Ok(v) => v,
        Err(_) => {
            return Err(());
        },
    };

    let len = parse_u16l(len_desc_bytes.as_slice());
    proof {
        old(source).wf_bounds();
        let rest = old(source).rest();
        assert(len_desc_bytes@[0] == rest[0] && len_desc_bytes@[1] == rest[1]);
        assert(source.rest() =~= rest.skip(2));
    }

    let block = match read_bytes(source, len as usize) {
        Ok(v) => v,
        Err(_) => {
            return Err(());
        },
    };

    let mut result: Vec<u8> = Vec::new();
    result.extend_from_slice(len_desc_bytes.as_slice());
    result.extend_from_slice(block.as_slice());

    proof {
        let rest = old(source).rest();
        lemma_take_skip_concat(rest, 2, len as int);
        assert(result@ =~= rest.take(2 + u16_of(rest[0], rest[1]) as int));
    }
    Ok(result)
}

/// Reads one complete frame: the type byte, then the payload its kind
/// announces. Fails on an unknown type byte or a stream that runs dry.
pub fn extract_message(source: &mut ByteStream) -> (r: Result<LurkMessageFrame, ()>)
    requires
        old(source).wf(),
    ensures
        final(source).wf(),
        final(source).buf() == old(source).buf(),
        final(source).position() >= old(source).position(),
        ({
            let rest = old(source).rest();
            if rest.len() >= 1 {
                match frame_payload_len(rest[0], rest.skip(1)) {
                    Some(k) => {
                        &&& r matches Ok(f) && f.message_type == rest[0] && f.data@ == rest.skip(
                            1,
                        ).take(k)
                        &&& final(source).position() == old(source).position() + 1 + k
                    },
                    None => r is Err,
                }
            } else {
                r is Err
            }
        }),
{
    proof {
        old(source).wf_bounds();
    }
    let type_byte = match source.read_byte() {
        Ok(b) => b,
        Err(_) => {
            return Err(());
        },
    };
    proof {
        assert(source.rest() =~= old(source).rest().skip(1));
    }

    match type_byte {
        MESSAGE_TYPE => Message::pull_message_data(source),
        CHANGE_ROOM_TYPE => ChangeRoom::pull_message_data(source),
        FIGHT_TYPE => Fight::pull_message_data(source),
        PVP_FIGHT_TYPE => PvpFight::pull_message_data(source),
        LOOT_TYPE => Loot::pull_message_data(source),
        START_TYPE => Start::pull_message_data(source),
        ERROR_TYPE => Error::pull_message_data(source),
        ACCEPT_TYPE => Accept::pull_message_data(source),
        ROOM_TYPE => Room::pull_message_data(source),
        CHARACTER_TYPE => Character::pull_message_data(source),
        GAME_TYPE => Game::pull_message_data(source),
        LEAVE_TYPE => Leave::pull_message_data(source),
        CONNECTION_TYPE => Connection::pull_message_data(source),
        _ => Err(()),
    }
}

/// Pulling one kind's payload off a byte stream as a raw frame.
pub trait PullMessageData: LurkMessageType + Sized {
    fn pull_message_data(source: &mut ByteStream) -> (r: Result<LurkMessageFrame, ()>)
        requires
            old(source).wf(),
        ensures
            final(source).wf(),
            final(source).buf() == old(source).buf(),
            final(source).position() >= old(source).position(),
            match frame_payload_len(Self::spec_message_type(), old(source).rest()) {
                Some(k) => {
                    &&& r matches Ok(f) && f.message_type == Self::spec_message_type()
                        && f.data@ == old(source).rest().take(k)
                    &&& final(source).position() == old(source).position() + k
                },
                None => r is Err,
            },
    ;
}

impl PullMessageData for Message {
    fn pull_message_data(source: &mut ByteStream) -> (r: Result<LurkMessageFrame, ()>) {
        proof {
            old(source).wf_bounds();
        }
        let message_len_bytes = match read_bytes(source, 2) {
            Ok(v) => v,
            Err(_) => {
                return Err(());
            },
        };
        let message_len = parse_u16l(message_len_bytes.as_slice());
        proof {
            let rest = old(source).rest();
            assert(message_len_bytes@[0] == rest[0] && message_len_bytes@[1] == rest[1]);
            assert(source.rest() =~= rest.skip(2));
        }

        let mid_block_bytes = match read_bytes(source, NAME_LENGTH as usize * 2) {
            Ok(v) => v,
            Err(_) => {
                return Err(());
            },
        };
        proof {
            assert(source.rest() =~= old(source).rest().skip(66));
        }

        let message_bytes = match read_bytes(source, message_len as usize) {
            Ok(v) => v,
            Err(_) => {
                return Err(());
            },
        };

        let mut result: Vec<u8> = Vec::new();
        result.extend_from_slice(message_len_bytes.as_slice());
        result.extend_from_slice(mid_block_bytes.as_slice());
        result.extend_from_slice(message_bytes.as_slice());

        proof {
            let rest = old(source).rest();
            lemma_take_skip_concat(rest, 2, 64);
            lemma_take_skip_concat(rest, 66, message_len as int);
            assert(result@ =~= rest.take(66 + u16_of(rest[0], rest[1]) as int));
        }
        Ok(LurkMessageFrame::new(MESSAGE_TYPE, result))
    }
}

impl PullMessageData for ChangeRoom {
    fn pull_message_data(source: &mut ByteStream) -> (r: Result<LurkMessageFrame, ()>) {
        let bytes = match read_bytes(source, 2) {
            Ok(v) => v,
            Err(_) => {
                return Err(());
            },
        };
        Ok(LurkMessageFrame::new(CHANGE_ROOM_TYPE, bytes))
    }
}

impl PullMessageData for Fight {
    fn pull_message_data(source: &mut ByteStream) -> (r: Result<LurkMessageFrame, ()>) {
        proof {
            assert(old(source).rest().take(0) =~= Seq::<u8>::empty());
        }
        Ok(LurkMessageFrame::new(FIGHT_TYPE, vec![]))
    }
}

impl PullMessageData for PvpFight {
    fn pull_message_data(source: &mut ByteStream) -> (r: Result<LurkMessageFrame, ()>) {
        let bytes = match read_bytes(source, NAME_LENGTH as usize) {
            Ok(v) => v,
            Err(_) => {
                return Err(());
            },
        };
        Ok(LurkMessageFrame::new(PVP_FIGHT_TYPE, bytes))
    }
}

impl PullMessageData for Loot {
    fn pull_message_data(source: &mut ByteStream) -> (r: Result<LurkMessageFrame, ()>) {
        let bytes = match read_bytes(source, NAME_LENGTH as usize) {
            Ok(v) => v,
            Err(_) => {
                return Err(());
            },
        };
        Ok(LurkMessageFrame::new(LOOT_TYPE, bytes))
    }
}

impl PullMessageData for Start {
    fn pull_message_data(source: &mut ByteStream) -> (r: Result<LurkMessageFrame, ()>) {
        proof {
            assert(old(source).rest().take(0) =~= Seq::<u8>::empty());
        }
        Ok(LurkMessageFrame::new(START_TYPE, vec![]))
    }
}

impl PullMessageData for Error {
    fn pull_message_data(source: &mut ByteStream) -> (r: Result<LurkMessageFrame, ()>) {
        proof {
            old(source).wf_bounds();
        }
        let error_code_byte = match read_bytes(source, 1) {
            Ok(v) => v,
            Err(_) => {
                return Err(());
            },
        };
        proof {
            assert(source.rest() =~= old(source).rest().skip(1));
        }
        let error_bytes = match read_var_bytes(source) {
            Ok(v) => v,
            Err(_) => {
                return Err(());
            },
        };
        let mut result: Vec<u8> = Vec::new();
        result.extend_from_slice(error_code_byte.as_slice());
        result.extend_from_slice(error_bytes.as_slice());
        proof {
            let rest = old(source).rest();
            lemma_take_skip_concat(rest, 1, 2 + u16_of(rest[1], rest[2]) as int);
            assert(result@ =~= rest.take(3 + u16_of(rest[1], rest[2]) as int));
        }
        Ok(LurkMessageFrame::new(ERROR_TYPE, result))
    }
}

impl PullMessageData for Accept {
    fn pull_message_data(source: &mut ByteStream) -> (r: Result<LurkMessageFrame, ()>) {
        let action_byte = match read_bytes(source, 1) {
            Ok(v) => v,
            Err(_) => {
                return Err(());
            },
        };
        Ok(LurkMessageFrame::new(ACCEPT_TYPE, action_byte))
    }
}

impl PullMessageData for Room {
    fn pull_message_data(source: &mut ByteStream) -> (r: Result<LurkMessageFrame, ()>) {
        proof {
            old(source).wf_bounds();
        }
        let pre_block = match read_bytes(source, NAME_LENGTH as usize + 2) {
            Ok(v) => v,
            Err(_) => {
                return Err(());
            },
        };
        proof {
            assert(source.rest() =~= old(source).rest().skip(34));
        }
        let description_block = match read_var_bytes(source) {
            Ok(v) => v,
            Err(_) => {
                return Err(());
            },
        };
        let mut result: Vec<u8> = Vec::new();
        result.extend_from_slice(pre_block.as_slice());
        result.extend_from_slice(description_block.as_slice());
        proof {
            let rest = old(source).rest();
            lemma_take_skip_concat(rest, 34, 2 + u16_of(rest[34], rest[35]) as int);
            assert(result@ =~= rest.take(36 + u16_of(rest[34], rest[35]) as int));
        }
        Ok(LurkMessageFrame::new(ROOM_TYPE, result))
    }
}

impl PullMessageData for Character {
    fn pull_message_data(source: &mut ByteStream) -> (r: Result<LurkMessageFrame, ()>) {
        proof {
            old(source).wf_bounds();
        }
        let pre_block = match read_bytes(source, 45) {
            Ok(v) => v,
            Err(_) => {
                return Err(());
            },
        };
        proof {
            assert(source.rest() =~= old(source).rest().skip(45));
        }
        let description_block = match read_var_bytes(source) {
            Ok(v) => v,
            Err(_) => {
                return Err(());
            },
        };
        let mut result: Vec<u8> = Vec::new();
        result.extend_from_slice(pre_block.as_slice());
        result.extend_from_slice(description_block.as_slice());
        proof {
            let rest = old(source).rest();
            lemma_take_skip_concat(rest, 45, 2 + u16_of(rest[45], rest[46]) as int);
            assert(result@ =~= rest.take(47 + u16_of(rest[45], rest[46]) as int));
        }
        Ok(LurkMessageFrame::new(CHARACTER_TYPE, result))
    }
}

impl PullMessageData for Game {
    fn pull_message_data(source: &mut ByteStream) -> (r: Result<LurkMessageFrame, ()>) {
        proof {
            old(source).wf_bounds();
        }
        let pre_block = match read_bytes(source, 4) {
            Ok(v) => v,
            Err(_) => {
                return Err(());
            },
        };
        proof {
            assert(source.rest() =~= old(source).rest().skip(4));
        }
        let description_block = match read_var_bytes(source) {
            Ok(v) => v,
            Err(_) => {
                return Err(());
            },
        };
        let mut result: Vec<u8> = Vec::new();
        result.extend_from_slice(pre_block.as_slice());
        result.extend_from_slice(description_block.as_slice());
        proof {
            let rest = old(source).rest();
            lemma_take_skip_concat(rest, 4, 2 + u16_of(rest[4], rest[5]) as int);
            assert(result@ =~= rest.take(6 + u16_of(rest[4], rest[5]) as int));
        }
        Ok(LurkMessageFrame::new(GAME_TYPE, result))
    }
}

impl PullMessageData for Leave {
    fn pull_message_data(source: &mut ByteStream) -> (r: Result<LurkMessageFrame, ()>) {
        proof {
            assert(old(source).rest().take(0) =~= Seq::<u8>::empty());
        }
        Ok(LurkMessageFrame::new(LEAVE_TYPE, vec![]))
    }
}

impl PullMessageData for Connection {
    fn pull_message_data(source: &mut ByteStream) -> (r: Result<LurkMessageFrame, ()>) {
        proof {
            old(source).wf_bounds();
        }
        let pre_block = match read_bytes(source, 34) {
            Ok(v) => v,
            Err(_) => {
                return Err(());
            },
        };
        proof {
            assert(source.rest() =~= old(source).rest().skip(34));
        }
        let description_block = match read_var_bytes(source) {
            Ok(v) => v,
            Err(_) => {
                return Err(());
            },
        };
        let mut result: Vec<u8> = Vec::new();
        result.extend_from_slice(pre_block.as_slice());
        result.extend_from_slice(description_block.as_slice());
        proof {
            let rest = old(source).rest();
            lemma_take_skip_concat(rest, 34, 2 + u16_of(rest[34], rest[35]) as int);
            assert(result@ =~= rest.take(36 + u16_of(rest[34], rest[35]) as int));
        }
        Ok(LurkMessageFrame::new(CONNECTION_TYPE, result))
    }
}

} // verus!
