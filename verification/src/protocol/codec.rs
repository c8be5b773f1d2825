//! The partial-buffer codec: frames are decoded out of a growing
//! `bytes::BytesMut` without consuming anything until a whole frame is
//! present, and encoded by appending complete frames to an outbound buffer.

use vstd::prelude::*;

use crate::protocol::extractor::frame_payload_len;
use crate::protocol::protocol_message::{
    character_parse_ok, character_parse_rel, error_parse_ok, error_parse_rel, game_parse_ok,
    game_parse_rel, lurk_message_blob, lurk_message_wf, message_parse_ok, message_parse_rel,
    room_parse_fields, room_parse_ok, Accept, ChangeRoom, Character, Connection, Error, Fight, Game, Leave, Loot, LurkMessage,
    LurkMessageBlobify, LurkMessageKind, LurkMessageParse, Message, PvpFight, Room, Start,
    ACCEPT_TYPE, CHANGE_ROOM_TYPE, CHARACTER_TYPE, CONNECTION_TYPE, ERROR_TYPE, FIGHT_TYPE,
    GAME_TYPE, LEAVE_TYPE, LOOT_TYPE, MESSAGE_TYPE, PVP_FIGHT_TYPE, ROOM_TYPE, START_TYPE,
};
use crate::protocol::primitive_parse::{fixed_string_at, fixed_string_chars};
use crate::protocol::wire::u16_of;

verus! {

#[verifier::external_type_specification]
#[verifier::external_body]
pub struct ExBytesMut(bytes::BytesMut);

/// The readable bytes of a `bytes::BytesMut` buffer.
pub uninterp spec fn bm_view(b: bytes::BytesMut) -> Seq<u8>;

/// Relies on bytes::BytesMut's AsRef<[u8]>: the readable bytes as a slice.
#[verifier::external_body]
pub(crate) fn bm_bytes(b: &bytes::BytesMut) -> (r: &[u8])
    ensures
        r@ == bm_view(*b),
{
    b.as_ref()
}

/// Relies on bytes::Buf::advance for BytesMut: the first `cnt` readable
/// bytes are dropped; it panics when `cnt` exceeds what remains.
#[verifier::external_body]
pub(crate) fn bm_advance(b: &mut bytes::BytesMut, cnt: usize)
    requires
        cnt <= bm_view(*old(b)).len(),
    ensures
        bm_view(*final(b)) == bm_view(*old(b)).skip(cnt as int),
{
    bytes::Buf::advance(b, cnt)
}

/// Relies on bytes::BytesMut::extend_from_slice: appends the given bytes.
#[verifier::external_body]
pub(crate) fn bm_extend(b: &mut bytes::BytesMut, extension: &[u8])
    ensures
        bm_view(*final(b)) == bm_view(*old(b)) + extension@,
{
    b.extend_from_slice(extension)
}

/// The codec failed to read a frame: an unknown type byte or a malformed
/// payload.
#[derive(Debug)]
pub struct LurkMessageReadError;

/// The stateless codec over a byte buffer.
pub struct LurkMessageCodec;

pub type LurkMessageReadResult = Result<Option<LurkMessage>, LurkMessageReadError>;

/// Whether a complete frame payload of the given kind decodes: every string
/// field, truncated as its framing demands, is valid UTF-8.
pub open spec fn payload_parse_ok(code: u8, p: Seq<u8>) -> bool {
    if code == MESSAGE_TYPE {
        message_parse_ok(p)
    } else if code == CHANGE_ROOM_TYPE {
        p.len() >= 2
    } else if code == FIGHT_TYPE || code == START_TYPE || code == LEAVE_TYPE {
        true
    } else if code == PVP_FIGHT_TYPE || code == LOOT_TYPE {
        fixed_string_at(p, 32)
    } else if code == ERROR_TYPE {
        error_parse_ok(p)
    } else if code == ACCEPT_TYPE {
        p.len() >= 1
    } else if code == ROOM_TYPE || code == CONNECTION_TYPE {
        room_parse_ok(p)
    } else if code == CHARACTER_TYPE {
        character_parse_ok(p)
    } else if code == GAME_TYPE {
        game_parse_ok(p)
    } else {
        false
    }
}

/// What message a complete frame payload of the given kind decodes to.
pub open spec fn payload_parse_rel(code: u8, p: Seq<u8>, m: LurkMessage) -> bool {
    if code == MESSAGE_TYPE {
        m matches LurkMessage::Message(x) && message_parse_rel(p, x, p.len() as int)
    } else if code == CHANGE_ROOM_TYPE {
        m matches LurkMessage::ChangeRoom(x) && x.room_number == u16_of(p[0], p[1])
    } else if code == FIGHT_TYPE {
        m is Fight
    } else if code == START_TYPE {
        m is Start
    } else if code == LEAVE_TYPE {
        m is Leave
    } else if code == PVP_FIGHT_TYPE {
        m matches LurkMessage::PvpFight(x) && x.target@ == fixed_string_chars(p, 32)
    } else if code == LOOT_TYPE {
        m matches LurkMessage::Loot(x) && x.target@ == fixed_string_chars(p, 32)
    } else if code == ERROR_TYPE {
        m matches LurkMessage::Error(x) && error_parse_rel(p, x, p.len() as int)
    } else if code == ACCEPT_TYPE {
        m matches LurkMessage::Accept(x) && x.action_type == p[0]
    } else if code == ROOM_TYPE {
        m matches LurkMessage::Room(x) && room_parse_fields(
            p,
            x.room_number,
            x.room_name@,
            x.room_description@,
            p.len() as int,
        )
    } else if code == CONNECTION_TYPE {
        m matches LurkMessage::Connection(x) && room_parse_fields(
            p,
            x.room_number,
            x.room_name@,
            x.room_description@,
            p.len() as int,
        )
    } else if code == CHARACTER_TYPE {
        m matches LurkMessage::Character(x) && character_parse_rel(p, x, p.len() as int)
    } else if code == GAME_TYPE {
        m matches LurkMessage::Game(x) && game_parse_rel(p, x, p.len() as int)
    } else {
        false
    }
}

/// The exact outcome of one decoding step on a buffer holding `d`: nothing
/// on an empty buffer, an error on an unknown type byte, nothing (and no
/// consumption) until the whole frame is buffered, and otherwise the decoded
/// message with the frame consumed, or an error (still consuming the frame)
/// when a string field is not valid UTF-8.
pub open spec fn decode_outcome(
    d: Seq<u8>,
    r: LurkMessageReadResult,
    dfinal: Seq<u8>,
) -> bool {
    if d.len() == 0 {
        &&& r matches Ok(m) && m is None
        &&& dfinal == d
    } else if !(1 <= d[0] <= 13) {
        &&& r is Err
        &&& dfinal == d
    } else {
        match frame_payload_len(d[0], d.skip(1)) {
            None => {
                &&& r matches Ok(m) && m is None
                &&& dfinal == d
            },
            Some(k) => {
                &&& dfinal == d.skip(1 + k)
                &&& if payload_parse_ok(d[0], d.skip(1).take(k)) {
                    r matches Ok(m) && m matches Some(msg) && payload_parse_rel(
                        d[0],
                        d.skip(1).take(k),
                        msg,
                    )
                } else {
                    r is Err
                }
            },
        }
    }
}

impl LurkMessageCodec {
    /// Appends one message's complete frame to the outbound buffer.
    pub fn encode(&mut self, item: LurkMessage, dst: &mut bytes::BytesMut) -> (r: Result<(), ()>)
        requires
            lurk_message_wf(item),
        ensures
            r is Ok,
            bm_view(*final(dst)) == bm_view(*old(dst)) + lurk_message_blob(item),
    {
        let bytes = match &item {
            LurkMessage::Message(m) => m.produce_lurk_message_blob(),
            LurkMessage::ChangeRoom(m) => m.produce_lurk_message_blob(),
            LurkMessage::Fight(m) => m.produce_lurk_message_blob(),
            LurkMessage::PvpFight(m) => m.produce_lurk_message_blob(),
            LurkMessage::Loot(m) => m.produce_lurk_message_blob(),
            LurkMessage::Start(m) => m.produce_lurk_message_blob(),
            LurkMessage::Error(m) => m.produce_lurk_message_blob(),
            LurkMessage::Accept(m) => m.produce_lurk_message_blob(),
            LurkMessage::Room(m) => m.produce_lurk_message_blob(),
            LurkMessage::Character(m) => m.produce_lurk_message_blob(),
            LurkMessage::Game(m) => m.produce_lurk_message_blob(),
            LurkMessage::Leave(m) => m.produce_lurk_message_blob(),
            LurkMessage::Connection(m) => m.produce_lurk_message_blob(),
        };

        bm_extend(dst, bytes.as_slice());
        Ok(())
    }

    /// Decodes at most one frame off the front of the buffer; consumes
    /// nothing until the whole frame is present.
    pub fn decode(&mut self, src: &mut bytes::BytesMut) -> (r: LurkMessageReadResult)
        ensures
            decode_outcome(bm_view(*old(src)), r, bm_view(*final(src))),
    {
        let slice = bm_bytes(src);
        if slice.len() == 0 {
            return Ok(None);
        }
        let type_byte = slice[0];

        if LurkMessageKind::from_code(type_byte).is_err() {
            return Err(LurkMessageReadError);
        }

        match type_byte {
            MESSAGE_TYPE => decode_message(src),
            CHANGE_ROOM_TYPE => decode_change_room(src),
            FIGHT_TYPE => {
                bm_advance(src, 1);
                Ok(Some(LurkMessage::Fight(Fight)))
            },
            PVP_FIGHT_TYPE => decode_pvp_fight(src),
            LOOT_TYPE => decode_loot(src),
            START_TYPE => {
                bm_advance(src, 1);
                Ok(Some(LurkMessage::Start(Start)))
            },
            ERROR_TYPE => decode_error(src),
            ACCEPT_TYPE => decode_accept(src),
            ROOM_TYPE => decode_room(src),
            CHARACTER_TYPE => decode_character(src),
            GAME_TYPE => decode_game(src),
            LEAVE_TYPE => {
                bm_advance(src, 1);
                Ok(Some(LurkMessage::Leave(Leave)))
            },
            CONNECTION_TYPE => decode_connection(src),
            _ => Err(LurkMessageReadError),
        }
    }
}

/// The u16 at a fixed offset of the buffered bytes, once present.
fn decode_u16(slice: &[u8], index: usize) -> (r: Option<u16>)
    requires
        index + 2 <= usize::MAX,
    ensures
        if slice@.len() >= index + 2 {
            r matches Some(v) && v == u16_of(slice@[index as int], slice@[index + 1])
        } else {
            r is None
        },
{
    if slice.len() >= index + 2 {
        let b1 = slice[index];
        let b2 = slice[index + 1];
        Some(b1 as u16 | ((b2 as u16) << 8))
    } else {
        None
    }
}

fn decode_message(src: &mut bytes::BytesMut) -> (r: LurkMessageReadResult)
    requires
        bm_view(*old(src)).len() >= 1,
        bm_view(*old(src))[0] == MESSAGE_TYPE,
    ensures
        decode_outcome(bm_view(*old(src)), r, bm_view(*final(src))),
{
    let slice = bm_bytes(src);
    if let Some(len) = decode_u16(slice, 1) {
        let total_len_needed = 1 + 2 + (2 * 32) + len as usize;

        if slice.len() >= total_len_needed {
            proof {
                assert(slice@.subrange(1, total_len_needed as int) =~= slice@.skip(1).take(
                    total_len_needed - 1,
                ));
            }
            let message = Message::parse_lurk_message(&slice[1..total_len_needed]);
            bm_advance(src, total_len_needed);
            match message {
                Ok((m, _)) => Ok(Some(LurkMessage::Message(m))),
                Err(_) => Err(LurkMessageReadError),
            }
        } else {
            Ok(None)
        }
    } else {
        Ok(None)
    }
}

fn decode_change_room(src: &mut bytes::BytesMut) -> (r: LurkMessageReadResult)
    requires
        bm_view(*old(src)).len() >= 1,
        bm_view(*old(src))[0] == CHANGE_ROOM_TYPE,
    ensures
        decode_outcome(bm_view(*old(src)), r, bm_view(*final(src))),
{
    let slice = bm_bytes(src);
    if slice.len() >= 3 {
        proof {
            assert(slice@.subrange(1, 3) =~= slice@.skip(1).take(2));
        }
        let change_room = ChangeRoom::parse_lurk_message(&slice[1..3]);
        bm_advance(src, 3);
        match change_room {
            Ok((m, _)) => Ok(Some(LurkMessage::ChangeRoom(m))),
            Err(_) => Err(LurkMessageReadError),
        }
    } else {
        Ok(None)
    }
}

fn decode_pvp_fight(src: &mut bytes::BytesMut) -> (r: LurkMessageReadResult)
    requires
        bm_view(*old(src)).len() >= 1,
        bm_view(*old(src))[0] == PVP_FIGHT_TYPE,
    ensures
        decode_outcome(bm_view(*old(src)), r, bm_view(*final(src))),
{
    let slice = bm_bytes(src);
    if slice.len() >= 33 {
        proof {
            assert(slice@.subrange(1, 33) =~= slice@.skip(1).take(32));
        }
        let pvp_fight = PvpFight::parse_lurk_message(&slice[1..33]);
        bm_advance(src, 33);
        match pvp_fight {
            Ok((m, _)) => Ok(Some(LurkMessage::PvpFight(m))),
            Err(_) => Err(LurkMessageReadError),
        }
    } else {
        Ok(None)
    }
}

fn decode_loot(src: &mut bytes::BytesMut) -> (r: LurkMessageReadResult)
    requires
        bm_view(*old(src)).len() >= 1,
        bm_view(*old(src))[0] == LOOT_TYPE,
    ensures
        decode_outcome(bm_view(*old(src)), r, bm_view(*final(src))),
{
    let slice = bm_bytes(src);
    if slice.len() >= 33 {
        proof {
            assert(slice@.subrange(1, 33) =~= slice@.skip(1).take(32));
        }
        let loot = Loot::parse_lurk_message(&slice[1..33]);
        bm_advance(src, 33);
        match loot {
            Ok((m, _)) => Ok(Some(LurkMessage::Loot(m))),
            Err(_) => Err(LurkMessageReadError),
        }
    } else {
        Ok(None)
    }
}

fn decode_error(src: &mut bytes::BytesMut) -> (r: LurkMessageReadResult)
    requires
        bm_view(*old(src)).len() >= 1,
        bm_view(*old(src))[0] == ERROR_TYPE,
    ensures
        decode_outcome(bm_view(*old(src)), r, bm_view(*final(src))),
{
    let slice = bm_bytes(src);
    if let Some(err_msg_len) = decode_u16(slice, 2) {
        let total_bytes_needed = 4 + err_msg_len as usize;
        if slice.len() >= total_bytes_needed {
            proof {
                assert(slice@.subrange(1, total_bytes_needed as int) =~= slice@.skip(1).take(
                    total_bytes_needed - 1,
                ));
            }
            let error = Error::parse_lurk_message(&slice[1..total_bytes_needed]);
            bm_advance(src, total_bytes_needed);
            match error {
                Ok((m, _)) => Ok(Some(LurkMessage::Error(m))),
                Err(_) => Err(LurkMessageReadError),
            }
        } else {
            Ok(None)
        }
    } else {
        Ok(None)
    }
}

fn decode_accept(src: &mut bytes::BytesMut) -> (r: LurkMessageReadResult)
    requires
        bm_view(*old(src)).len() >= 1,
        bm_view(*old(src))[0] == ACCEPT_TYPE,
    ensures
        decode_outcome(bm_view(*old(src)), r, bm_view(*final(src))),
{
    let slice = bm_bytes(src);
    if slice.len() >= 2 {
        proof {
            assert(slice@.subrange(1, 2) =~= slice@.skip(1).take(1));
        }
        let accept = Accept::parse_lurk_message(&slice[1..2]);
        bm_advance(src, 2);
        match accept {
            Ok((m, _)) => Ok(Some(LurkMessage::Accept(m))),
            Err(_) => Err(LurkMessageReadError),
        }
    } else {
        Ok(None)
    }
}

fn decode_room(src: &mut bytes::BytesMut) -> (r: LurkMessageReadResult)
    requires
        bm_view(*old(src)).len() >= 1,
        bm_view(*old(src))[0] == ROOM_TYPE,
    ensures
        decode_outcome(bm_view(*old(src)), r, bm_view(*final(src))),
{
    let slice = bm_bytes(src);
    if let Some(desc_len) = decode_u16(slice, 35) {
        let total_needed = 1 + 2 + 32 + 2 + desc_len as usize;
        if slice.len() >= total_needed {
            proof {
                assert(slice@.subrange(1, total_needed as int) =~= slice@.skip(1).take(
                    total_needed - 1,
                ));
            }
            let room = Room::parse_lurk_message(&slice[1..total_needed]);
            bm_advance(src, total_needed);
            match room {
                Ok((m, _)) => Ok(Some(LurkMessage::Room(m))),
                Err(_) => Err(LurkMessageReadError),
            }
        } else {
            Ok(None)
        }
    } else {
        Ok(None)
    }
}

fn decode_character(src: &mut bytes::BytesMut) -> (r: LurkMessageReadResult)
    requires
        bm_view(*old(src)).len() >= 1,
        bm_view(*old(src))[0] == CHARACTER_TYPE,
    ensures
        decode_outcome(bm_view(*old(src)), r, bm_view(*final(src))),
{
    let slice = bm_bytes(src);
    if let Some(desc_len) = decode_u16(slice, 46) {
        let total_bytes_needed = 1 + 32 + 1 + 2 + 2 + 2 + 2 + 2 + 2 + 2 + desc_len as usize;
        if slice.len() >= total_bytes_needed {
            proof {
                assert(slice@.subrange(1, total_bytes_needed as int) =~= slice@.skip(1).take(
                    total_bytes_needed - 1,
                ));
            }
            let character = Character::parse_lurk_message(&slice[1..total_bytes_needed]);
            bm_advance(src, total_bytes_needed);
            match character {
                Ok((m, _)) => Ok(Some(LurkMessage::Character(m))),
                Err(_) => Err(LurkMessageReadError),
            }
        } else {
            Ok(None)
        }
    } else {
        Ok(None)
    }
}

fn decode_game(src: &mut bytes::BytesMut) -> (r: LurkMessageReadResult)
    requires
        bm_view(*old(src)).len() >= 1,
        bm_view(*old(src))[0] == GAME_TYPE,
    ensures
        decode_outcome(bm_view(*old(src)), r, bm_view(*final(src))),
{
    let slice = bm_bytes(src);
    if let Some(desc_len) = decode_u16(slice, 5) {
        let total_bytes_needed = 1 + 2 + 2 + 2 + desc_len as usize;
        if slice.len() >= total_bytes_needed {
            proof {
                assert(slice@.subrange(1, total_bytes_needed as int) =~= slice@.skip(1).take(
                    total_bytes_needed - 1,
                ));
            }
            let game = Game::parse_lurk_message(&slice[1..total_bytes_needed]);
            bm_advance(src, total_bytes_needed);
            match game {
                Ok((m, _)) => Ok(Some(LurkMessage::Game(m))),
                Err(_) => Err(LurkMessageReadError),
            }
        } else {
            Ok(None)
        }
    } else {
        Ok(None)
    }
}

fn decode_connection(src: &mut bytes::BytesMut) -> (r: LurkMessageReadResult)
    requires
        bm_view(*old(src)).len() >= 1,
        bm_view(*old(src))[0] == CONNECTION_TYPE,
    ensures
        decode_outcome(bm_view(*old(src)), r, bm_view(*final(src))),
{
    let slice = bm_bytes(src);
    if let Some(desc_len) = decode_u16(slice, 35) {
        let total_needed = 1 + 2 + 32 + 2 + desc_len as usize;
        if slice.len() >= total_needed {
            proof {
                assert(slice@.subrange(1, total_needed as int) =~= slice@.skip(1).take(
                    total_needed - 1,
                ));
            }
            let connection = Connection::parse_lurk_message(&slice[1..total_needed]);
            bm_advance(src, total_needed);
            match connection {
                Ok((m, _)) => Ok(Some(LurkMessage::Connection(m))),
                Err(_) => Err(LurkMessageReadError),
            }
        } else {
            Ok(None)
        }
    } else {
        Ok(None)
    }
}

} // verus!
