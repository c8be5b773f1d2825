//! The message catalog: the thirteen typed message records, each with its
//! constructor, exact on-wire encoding, and payload parser, together with
//! the kind discriminator and its direction rules.

use vstd::prelude::*;

use crate::protocol::primitive_break::OutputBuffer;
use crate::protocol::primitive_parse::{
    fixed_string_at, fixed_string_chars, var_string_at, var_string_chars, ReadBufferCursor,
};
use crate::protocol::wire::{fixed_bytes, i16_le, i16_of, u16_le, u16_of, var_bytes};
use crate::util::BitField;

verus! {

use vstd::utf8::encode_utf8;

pub const NAME_LENGTH: u16 = 32;

pub const MESSAGE_TYPE: u8 = 1;
pub const CHANGE_ROOM_TYPE: u8 = 2;
pub const FIGHT_TYPE: u8 = 3;
pub const PVP_FIGHT_TYPE: u8 = 4;
pub const LOOT_TYPE: u8 = 5;
pub const START_TYPE: u8 = 6;
pub const ERROR_TYPE: u8 = 7;
pub const ACCEPT_TYPE: u8 = 8;
pub const ROOM_TYPE: u8 = 9;
pub const CHARACTER_TYPE: u8 = 10;
pub const GAME_TYPE: u8 = 11;
pub const LEAVE_TYPE: u8 = 12;
pub const CONNECTION_TYPE: u8 = 13;

#[derive(Clone, Copy, PartialEq, Eq, Structural, Debug)]
pub enum LurkMessageKind {
    Message,
    ChangeRoom,
    Fight,
    PvPFight,
    Loot,
    Start,
    Error,
    Accept,
    Room,
    Character,
    Game,
    Leave,
    Connection,
}

pub enum LurkMessage {
    Message(Message),
    ChangeRoom(ChangeRoom),
    Fight(Fight),
    PvpFight(PvpFight),
    Loot(Loot),
    Start(Start),
    Error(Error),
    Accept(Accept),
    Room(Room),
    Character(Character),
    Game(Game),
    Leave(Leave),
    Connection(Connection),
}


/// Whether two messages are the same record with the same field values,
/// strings compared by their characters.
pub open spec fn lurk_message_view_eq(a: LurkMessage, b: LurkMessage) -> bool {
    match (a, b) {
        (LurkMessage::Message(x), LurkMessage::Message(y)) => {
            &&& x.message@ == y.message@
            &&& x.sender@ == y.sender@
            &&& x.receiver@ == y.receiver@
        },
        (LurkMessage::ChangeRoom(x), LurkMessage::ChangeRoom(y)) => x == y,
        (LurkMessage::Fight(x), LurkMessage::Fight(y)) => true,
        (LurkMessage::PvpFight(x), LurkMessage::PvpFight(y)) => x.target@ == y.target@,
        (LurkMessage::Loot(x), LurkMessage::Loot(y)) => x.target@ == y.target@,
        (LurkMessage::Start(x), LurkMessage::Start(y)) => true,
        (LurkMessage::Error(x), LurkMessage::Error(y)) => {
            &&& x.error_code == y.error_code
            &&& x.error_message@ == y.error_message@
        },
        (LurkMessage::Accept(x), LurkMessage::Accept(y)) => x == y,
        (LurkMessage::Room(x), LurkMessage::Room(y)) => {
            &&& x.room_number == y.room_number
            &&& x.room_name@ == y.room_name@
            &&& x.room_description@ == y.room_description@
        },
        (LurkMessage::Character(x), LurkMessage::Character(y)) => {
            &&& x.player_name@ == y.player_name@
            &&& x.is_alive == y.is_alive
            &&& x.join_battles == y.join_battles
            &&& x.is_monster == y.is_monster
            &&& x.is_started == y.is_started
            &&& x.is_ready == y.is_ready
            &&& x.attack == y.attack
            &&& x.defense == y.defense
            &&& x.regeneration == y.regeneration
            &&& x.health == y.health
            &&& x.gold == y.gold
            &&& x.current_room_number == y.current_room_number
            &&& x.description@ == y.description@
        },
        (LurkMessage::Game(x), LurkMessage::Game(y)) => {
            &&& x.initial_points == y.initial_points
            &&& x.stat_limit == y.stat_limit
            &&& x.description@ == y.description@
        },
        (LurkMessage::Leave(x), LurkMessage::Leave(y)) => true,
        (LurkMessage::Connection(x), LurkMessage::Connection(y)) => {
            &&& x.room_number == y.room_number
            &&& x.room_name@ == y.room_name@
            &&& x.room_description@ == y.room_description@
        },
        _ => false,
    }
}

impl Clone for LurkMessage {
    /// The copy carries the same fields; strings keep their characters, so
    /// both encode to the same frame.
    fn clone(&self) -> (r: Self)
        ensures
            lurk_message_view_eq(r, *self),
    {
        match self {
            LurkMessage::Message(x) => LurkMessage::Message(
                Message {
                    message: x.message.clone(),
                    sender: x.sender.clone(),
                    receiver: x.receiver.clone(),
                },
            ),
            LurkMessage::ChangeRoom(x) => LurkMessage::ChangeRoom(ChangeRoom { room_number: x.room_number }),
            LurkMessage::Fight(x) => LurkMessage::Fight(Fight {  }),
            LurkMessage::PvpFight(x) => LurkMessage::PvpFight(PvpFight { target: x.target.clone() }),
            LurkMessage::Loot(x) => LurkMessage::Loot(Loot { target: x.target.clone() }),
            LurkMessage::Start(x) => LurkMessage::Start(Start {  }),
            LurkMessage::Error(x) => LurkMessage::Error(
                Error { error_code: x.error_code, error_message: x.error_message.clone() },
            ),
            LurkMessage::Accept(x) => LurkMessage::Accept(Accept { action_type: x.action_type }),
            LurkMessage::Room(x) => LurkMessage::Room(
                Room {
                    room_number: x.room_number,
                    room_name: x.room_name.clone(),
                    room_description: x.room_description.clone(),
                },
            ),
            LurkMessage::Character(x) => LurkMessage::Character(
                Character {
                    player_name: x.player_name.clone(),
                    is_alive: x.is_alive,
                    join_battles: x.join_battles,
                    is_monster: x.is_monster,
                    is_started: x.is_started,
                    is_ready: x.is_ready,
                    attack: x.attack,
                    defense: x.defense,
                    regeneration: x.regeneration,
                    health: x.health,
                    gold: x.gold,
                    current_room_number: x.current_room_number,
                    description: x.description.clone(),
                },
            ),
            LurkMessage::Game(x) => LurkMessage::Game(
                Game {
                    initial_points: x.initial_points,
                    stat_limit: x.stat_limit,
                    description: x.description.clone(),
                },
            ),
            LurkMessage::Leave(x) => LurkMessage::Leave(Leave {  }),
            LurkMessage::Connection(x) => LurkMessage::Connection(
                Connection {
                    room_number: x.room_number,
                    room_name: x.room_name.clone(),
                    room_description: x.room_description.clone(),
                },
            ),
        }
    }
}

/// Messages with the same field values encode to the same frame and are
/// framable under the same bounds.
pub proof fn lemma_view_eq_same_blob(a: LurkMessage, b: LurkMessage)
    requires
        lurk_message_view_eq(a, b),
    ensures
        lurk_message_blob(a) == lurk_message_blob(b),
        lurk_message_wf(a) == lurk_message_wf(b),
{
}

/// The fixed single-byte type tag of each message kind.
pub open spec fn spec_code_of(kind: LurkMessageKind) -> u8 {
    match kind {
        LurkMessageKind::Message => MESSAGE_TYPE,
        LurkMessageKind::ChangeRoom => CHANGE_ROOM_TYPE,
        LurkMessageKind::Fight => FIGHT_TYPE,
        LurkMessageKind::PvPFight => PVP_FIGHT_TYPE,
        LurkMessageKind::Loot => LOOT_TYPE,
        LurkMessageKind::Start => START_TYPE,
        LurkMessageKind::Error => ERROR_TYPE,
        LurkMessageKind::Accept => ACCEPT_TYPE,
        LurkMessageKind::Room => ROOM_TYPE,
        LurkMessageKind::Character => CHARACTER_TYPE,
        LurkMessageKind::Game => GAME_TYPE,
        LurkMessageKind::Leave => LEAVE_TYPE,
        LurkMessageKind::Connection => CONNECTION_TYPE,
    }
}

/// Kinds a server may receive from a client.
pub open spec fn spec_server_recipient(kind: LurkMessageKind) -> bool {
    match kind {
        LurkMessageKind::Message => true,
        LurkMessageKind::ChangeRoom => true,
        LurkMessageKind::Fight => true,
        LurkMessageKind::PvPFight => true,
        LurkMessageKind::Loot => true,
        LurkMessageKind::Start => true,
        LurkMessageKind::Character => true,
        LurkMessageKind::Leave => true,
        _ => false,
    }
}

/// Kinds a client may receive from a server.
pub open spec fn spec_client_recipient(kind: LurkMessageKind) -> bool {
    match kind {
        LurkMessageKind::Message => true,
        LurkMessageKind::Error => true,
        LurkMessageKind::Accept => true,
        LurkMessageKind::Character => true,
        LurkMessageKind::Game => true,
        LurkMessageKind::Connection => true,
        _ => false,
    }
}

impl LurkMessageKind {
    /// The kind named by a type byte; type bytes outside 1..=13 name none.
    pub fn from_code(code: u8) -> (r: Result<LurkMessageKind, ()>)
        ensures
            r is Ok <==> 1 <= code <= 13,
            r matches Ok(k) ==> spec_code_of(k) == code,
    {
        match code {
            MESSAGE_TYPE => Ok(LurkMessageKind::Message),
            CHANGE_ROOM_TYPE => Ok(LurkMessageKind::ChangeRoom),
            FIGHT_TYPE => Ok(LurkMessageKind::Fight),
            PVP_FIGHT_TYPE => Ok(LurkMessageKind::PvPFight),
            LOOT_TYPE => Ok(LurkMessageKind::Loot),
            START_TYPE => Ok(LurkMessageKind::Start),
            ERROR_TYPE => Ok(LurkMessageKind::Error),
            ACCEPT_TYPE => Ok(LurkMessageKind::Accept),
            ROOM_TYPE => Ok(LurkMessageKind::Room),
            CHARACTER_TYPE => Ok(LurkMessageKind::Character),
            GAME_TYPE => Ok(LurkMessageKind::Game),
            LEAVE_TYPE => Ok(LurkMessageKind::Leave),
            CONNECTION_TYPE => Ok(LurkMessageKind::Connection),
            _ => Err(()),
        }
    }

    pub fn is_server_recipient(&self) -> (r: bool)
        ensures
            r == spec_server_recipient(*self),
    {
        match *self {
            LurkMessageKind::Message => true,
            LurkMessageKind::ChangeRoom => true,
            LurkMessageKind::Fight => true,
            LurkMessageKind::PvPFight => true,
            LurkMessageKind::Loot => true,
            LurkMessageKind::Start => true,
            LurkMessageKind::Character => true,
            LurkMessageKind::Leave => true,
            _ => false,
        }
    }

    pub fn is_client_recipient(&self) -> (r: bool)
        ensures
            r == spec_client_recipient(*self),
    {
        match *self {
            LurkMessageKind::Message => true,
            LurkMessageKind::Error => true,
            LurkMessageKind::Accept => true,
            LurkMessageKind::Character => true,
            LurkMessageKind::Game => true,
            LurkMessageKind::Connection => true,
            _ => false,
        }
    }

    pub fn is_server_sendable(&self) -> (r: bool)
        ensures
            r == spec_client_recipient(*self),
    {
        self.is_client_recipient()
    }

    pub fn is_client_sendable(&self) -> (r: bool)
        ensures
            r == spec_server_recipient(*self),
    {
        self.is_server_recipient()
    }
}


/// Whether the size bounds hold under which a message can be framed.
pub open spec fn lurk_message_wf(m: LurkMessage) -> bool {
    match m {
        LurkMessage::Message(x) => message_wire_wf(x),
        LurkMessage::ChangeRoom(x) => change_room_wire_wf(x),
        LurkMessage::Fight(x) => fight_wire_wf(x),
        LurkMessage::PvpFight(x) => pvp_fight_wire_wf(x),
        LurkMessage::Loot(x) => loot_wire_wf(x),
        LurkMessage::Start(x) => start_wire_wf(x),
        LurkMessage::Error(x) => error_wire_wf(x),
        LurkMessage::Accept(x) => accept_wire_wf(x),
        LurkMessage::Room(x) => room_wire_wf(x),
        LurkMessage::Character(x) => character_wire_wf(x),
        LurkMessage::Game(x) => game_wire_wf(x),
        LurkMessage::Leave(x) => leave_wire_wf(x),
        LurkMessage::Connection(x) => connection_wire_wf(x),
    }
}

/// The complete frame a message encodes to, type byte included.
pub open spec fn lurk_message_blob(m: LurkMessage) -> Seq<u8> {
    match m {
        LurkMessage::Message(x) => message_blob(x),
        LurkMessage::ChangeRoom(x) => change_room_blob(x),
        LurkMessage::Fight(x) => fight_blob(x),
        LurkMessage::PvpFight(x) => pvp_fight_blob(x),
        LurkMessage::Loot(x) => loot_blob(x),
        LurkMessage::Start(x) => start_blob(x),
        LurkMessage::Error(x) => error_blob(x),
        LurkMessage::Accept(x) => accept_blob(x),
        LurkMessage::Room(x) => room_blob(x),
        LurkMessage::Character(x) => character_blob(x),
        LurkMessage::Game(x) => game_blob(x),
        LurkMessage::Leave(x) => leave_blob(x),
        LurkMessage::Connection(x) => connection_blob(x),
    }
}

/// A complete raw frame: the type byte and the payload bytes that follow it.
#[derive(Clone, Debug, PartialEq)]
pub struct LurkMessageFrame {
    pub message_type: u8,
    pub data: Vec<u8>,
}

impl LurkMessageFrame {
    pub fn new(message_type: u8, data: Vec<u8>) -> (r: LurkMessageFrame)
        ensures
            r.message_type == message_type,
            r.data == data,
    {
        LurkMessageFrame { message_type, data }
    }
}

/// Parsing a frame payload (the bytes after the type byte) into a typed
/// message record and the number of payload bytes consumed.
pub trait LurkMessageParse<T>: Sized where T: LurkMessageType {
    /// Whether the payload carries a complete, well-formed frame of this kind.
    spec fn spec_parse_ok(data: Seq<u8>) -> bool;

    /// The exact relation between payload, parsed record, and consumed count.
    spec fn spec_parse_rel(data: Seq<u8>, m: T, n: int) -> bool;

    fn parse_lurk_message(message_data: &[u8]) -> (r: Result<(T, usize), ()>)
        ensures
            r is Ok <==> Self::spec_parse_ok(message_data@),
            r matches Ok((m, n)) ==> Self::spec_parse_rel(message_data@, m, n as int),
    ;
}

/// Encoding a typed message record into its complete on-wire frame,
/// leading type byte included.
pub trait LurkMessageBlobify {
    /// The size bounds under which the record can be framed at all.
    spec fn wire_wf(&self) -> bool;

    /// The complete frame this record encodes to.
    spec fn spec_blob(&self) -> Seq<u8>;

    fn produce_lurk_message_blob(&self) -> (r: Vec<u8>)
        requires
            self.wire_wf(),
        ensures
            r@ == self.spec_blob(),
    ;
}

/// The constant type tag of a message record type.
pub trait LurkMessageType {
    spec fn spec_message_type() -> u8;

    fn message_type() -> (r: u8)
        ensures
            r == Self::spec_message_type(),
    ;
}

//////////////////////////////////////////////////////////////////////////////
#[derive(Clone)]
pub struct Message {
    pub message: String,
    pub sender: String,
    pub receiver: String,
}

impl Message {
    /// Whether the fields obey the wire bounds: names of at most 32 bytes,
    /// body shorter than 65535 bytes.
    pub open spec fn valid(&self) -> bool {
        &&& encode_utf8(self.message@).len() < 0xFFFF
        &&& encode_utf8(self.sender@).len() <= 32
        &&& encode_utf8(self.receiver@).len() <= 32
    }

    pub fn new(message_content: String, sender: String, receiver: String) -> (r: Result<
        Message,
        (),
    >)
        ensures
            r is Ok <==> (encode_utf8(message_content@).len() < 0xFFFF && encode_utf8(sender@).len()
                <= 32 && encode_utf8(receiver@).len() <= 32),
            r matches Ok(m) ==> m == (Message { message: message_content, sender, receiver }),
    {
        if message_content.as_str().as_bytes().len() < 0xFFFF
            && sender.as_str().as_bytes().len() <= 32 && receiver.as_str().as_bytes().len() <= 32 {
            return Ok(Message { message: message_content, sender, receiver });
        }

        Err(())
    }
}

/// Whether a `Message` payload is complete and well formed: the declared
/// body length must fit after the two 32-byte name fields, and all three
/// string fields must be valid UTF-8 after NUL truncation.
pub open spec fn message_parse_ok(d: Seq<u8>) -> bool {
    &&& d.len() >= 2
    &&& fixed_string_at(d.skip(2), 32)
    &&& fixed_string_at(d.skip(34), 32)
    &&& u16_of(d[0], d[1]) + 66 <= d.len()
    &&& fixed_string_at(d.skip(66), u16_of(d[0], d[1]) as int)
}

/// What a parsed `Message` holds: body length from the leading u16, receiver
/// then sender as 32-byte NUL-truncated names, then the body itself.
pub open spec fn message_parse_rel(d: Seq<u8>, m: Message, n: int) -> bool {
    &&& n == 66 + u16_of(d[0], d[1])
    &&& m.receiver@ == fixed_string_chars(d.skip(2), 32)
    &&& m.sender@ == fixed_string_chars(d.skip(34), 32)
    &&& m.message@ == fixed_string_chars(d.skip(66), u16_of(d[0], d[1]) as int)
}

impl LurkMessageParse<Message> for Message {
    open spec fn spec_parse_ok(data: Seq<u8>) -> bool {
        message_parse_ok(data)
    }

    open spec fn spec_parse_rel(data: Seq<u8>, m: Message, n: int) -> bool {
        message_parse_rel(data, m, n)
    }

    fn parse_lurk_message(data: &[u8]) -> (r: Result<(Message, usize), ()>) {
        let mut cursor = ReadBufferCursor::new(data);

        let message_len = match cursor.parse_u16l() {
            Ok(v) => v,
            Err(_) => {
                return Err(());
            },
        };

        let receiver = match cursor.parse_string(NAME_LENGTH) {
            Ok(v) => v,
            Err(_) => {
                return Err(());
            },
        };
        let sender = match cursor.parse_string(NAME_LENGTH) {
            Ok(v) => v,
            Err(_) => {
                return Err(());
            },
        };

        let bytes_read: usize = NAME_LENGTH as usize * 2 + 2;

        if message_len as usize > cursor.bytes_remaining() {
            return Err(());
        }

        let message = match cursor.parse_string(message_len) {
            Ok(v) => v,
            Err(_) => {
                return Err(());
            },
        };

        Ok((Message { message, sender, receiver }, bytes_read + message_len as usize))
    }
}

/// The size bounds under which a `Message` can be framed.
pub open spec fn message_wire_wf(m: Message) -> bool {
        encode_utf8(m.message@).len() <= 0xFFFF
}

/// The complete frame a `Message` encodes to.
pub open spec fn message_blob(m: Message) -> Seq<u8> {
        seq![MESSAGE_TYPE] + u16_le(encode_utf8(m.message@).len() as u16) + fixed_bytes(
            encode_utf8(m.receiver@),
            32,
        ) + fixed_bytes(encode_utf8(m.sender@), 32) + encode_utf8(m.message@)
}

impl LurkMessageBlobify for Message {
    open spec fn wire_wf(&self) -> bool {
        message_wire_wf(*self)
    }

    open spec fn spec_blob(&self) -> Seq<u8> {
        message_blob(*self)
    }

    fn produce_lurk_message_blob(&self) -> (r: Vec<u8>) {
        let mut builder = OutputBuffer::new();
        let len = self.message.as_str().as_bytes().len() as u16;

        builder
            .write_byte(Message::message_type())
            .write_u16l(len)
            .write_string_fixed(self.receiver.as_str(), NAME_LENGTH)
            .write_string_fixed(self.sender.as_str(), NAME_LENGTH)
            .write_string_fixed(self.message.as_str(), len);

        proof {
            assert(fixed_bytes(encode_utf8(self.message@), len as nat) =~= encode_utf8(
                self.message@,
            ));
            assert(builder.data@ =~= self.spec_blob());
        }
        builder.data
    }
}

impl LurkMessageType for Message {
    open spec fn spec_message_type() -> u8 {
        MESSAGE_TYPE
    }

    fn message_type() -> u8 {
        MESSAGE_TYPE
    }
}

//////////////////////////////////////////////////////////////////////////////
#[derive(Clone, Copy)]
pub struct ChangeRoom {
    pub room_number: u16,
}

impl ChangeRoom {
    pub fn new(room_number: u16) -> (r: ChangeRoom)
        ensures
            r.room_number == room_number,
    {
        ChangeRoom { room_number }
    }
}

impl LurkMessageParse<ChangeRoom> for ChangeRoom {
    open spec fn spec_parse_ok(data: Seq<u8>) -> bool {
        data.len() >= 2
    }

    open spec fn spec_parse_rel(data: Seq<u8>, m: ChangeRoom, n: int) -> bool {
        &&& m.room_number == u16_of(data[0], data[1])
        &&& n == 2
    }

    fn parse_lurk_message(data: &[u8]) -> (r: Result<(ChangeRoom, usize), ()>) {
        let mut cursor = ReadBufferCursor::new(data);

        match cursor.parse_u16l() {
            Ok(t) => Ok((ChangeRoom { room_number: t }, 2)),
            Err(_) => Err(()),
        }
    }
}

/// The size bounds under which a `ChangeRoom` can be framed.
pub open spec fn change_room_wire_wf(m: ChangeRoom) -> bool {
        true
}

/// The complete frame a `ChangeRoom` encodes to.
pub open spec fn change_room_blob(m: ChangeRoom) -> Seq<u8> {
        seq![CHANGE_ROOM_TYPE] + u16_le(m.room_number)
}

impl LurkMessageBlobify for ChangeRoom {
    open spec fn wire_wf(&self) -> bool {
        change_room_wire_wf(*self)
    }

    open spec fn spec_blob(&self) -> Seq<u8> {
        change_room_blob(*self)
    }

    fn produce_lurk_message_blob(&self) -> (r: Vec<u8>) {
        let mut builder = OutputBuffer::new();

        builder.write_byte(ChangeRoom::message_type()).write_u16l(self.room_number);
        proof {
            assert(builder.data@ =~= self.spec_blob());
        }
        builder.data
    }
}

impl LurkMessageType for ChangeRoom {
    open spec fn spec_message_type() -> u8 {
        CHANGE_ROOM_TYPE
    }

    fn message_type() -> u8 {
        CHANGE_ROOM_TYPE
    }
}

//////////////////////////////////////////////////////////////////////////////
#[derive(Default, Clone, Copy)]
pub struct Fight;

impl Fight {
    pub fn new() -> Fight {
        Fight {  }
    }
}

impl LurkMessageParse<Fight> for Fight {
    open spec fn spec_parse_ok(data: Seq<u8>) -> bool {
        true
    }

    open spec fn spec_parse_rel(data: Seq<u8>, m: Fight, n: int) -> bool {
        n == 0
    }

    fn parse_lurk_message(_data: &[u8]) -> (r: Result<(Fight, usize), ()>) {
        Ok((Fight {  }, 0))
    }
}

/// The size bounds under which a `Fight` can be framed.
pub open spec fn fight_wire_wf(m: Fight) -> bool {
        true
}

/// The complete frame a `Fight` encodes to.
pub open spec fn fight_blob(m: Fight) -> Seq<u8> {
        seq![FIGHT_TYPE]
}

impl LurkMessageBlobify for Fight {
    open spec fn wire_wf(&self) -> bool {
        fight_wire_wf(*self)
    }

    open spec fn spec_blob(&self) -> Seq<u8> {
        fight_blob(*self)
    }

    fn produce_lurk_message_blob(&self) -> (r: Vec<u8>) {
        let mut builder = OutputBuffer::new();
        builder.write_byte(Fight::message_type());
        proof {
            assert(builder.data@ =~= self.spec_blob());
        }
        builder.data
    }
}

impl LurkMessageType for Fight {
    open spec fn spec_message_type() -> u8 {
        FIGHT_TYPE
    }

    fn message_type() -> u8 {
        FIGHT_TYPE
    }
}

//////////////////////////////////////////////////////////////////////////////
#[derive(Default, Clone)]
pub struct PvpFight {
    pub target: String,
}

impl PvpFight {
    pub fn new(target: String) -> (r: Result<PvpFight, ()>)
        ensures
            r is Ok <==> encode_utf8(target@).len() <= 32,
            r matches Ok(m) ==> m == (PvpFight { target }),
    {
        if target.as_str().as_bytes().len() <= 32 {
            return Ok(PvpFight { target });
        }

        Err(())
    }
}

impl LurkMessageParse<PvpFight> for PvpFight {
    open spec fn spec_parse_ok(data: Seq<u8>) -> bool {
        fixed_string_at(data, 32)
    }

    open spec fn spec_parse_rel(data: Seq<u8>, m: PvpFight, n: int) -> bool {
        &&& m.target@ == fixed_string_chars(data, 32)
        &&& n == 32
    }

    fn parse_lurk_message(data: &[u8]) -> (r: Result<(PvpFight, usize), ()>) {
        let mut cursor = ReadBufferCursor::new(data);
        proof {
            assert(data@.skip(0) =~= data@);
        }

        match cursor.parse_string(NAME_LENGTH) {
            Ok(t) => Ok((PvpFight { target: t }, NAME_LENGTH as usize)),
            Err(_) => Err(()),
        }
    }
}

/// The size bounds under which a `PvpFight` can be framed.
pub open spec fn pvp_fight_wire_wf(m: PvpFight) -> bool {
        true
}

/// The complete frame a `PvpFight` encodes to.
pub open spec fn pvp_fight_blob(m: PvpFight) -> Seq<u8> {
        seq![PVP_FIGHT_TYPE] + fixed_bytes(encode_utf8(m.target@), 32)
}

impl LurkMessageBlobify for PvpFight {
    open spec fn wire_wf(&self) -> bool {
        pvp_fight_wire_wf(*self)
    }

    open spec fn spec_blob(&self) -> Seq<u8> {
        pvp_fight_blob(*self)
    }

    fn produce_lurk_message_blob(&self) -> (r: Vec<u8>) {
        let mut builder = OutputBuffer::new();

        builder.write_byte(PvpFight::message_type()).write_string_fixed(
            self.target.as_str(),
            NAME_LENGTH,
        );

        proof {
            assert(builder.data@ =~= self.spec_blob());
        }
        builder.data
    }
}

impl LurkMessageType for PvpFight {
    open spec fn spec_message_type() -> u8 {
        PVP_FIGHT_TYPE
    }

    fn message_type() -> u8 {
        PVP_FIGHT_TYPE
    }
}

//////////////////////////////////////////////////////////////////////////////
#[derive(Clone)]
pub struct Loot {
    pub target: String,
}

impl Loot {
    pub fn new(target: String) -> (r: Result<Loot, ()>)
        ensures
            r is Ok <==> encode_utf8(target@).len() <= 32,
            r matches Ok(m) ==> m == (Loot { target }),
    {
        if target.as_str().as_bytes().len() <= 32 {
            return Ok(Loot { target });
        }

        Err(())
    }
}

impl LurkMessageParse<Loot> for Loot {
    open spec fn spec_parse_ok(data: Seq<u8>) -> bool {
        fixed_string_at(data, 32)
    }

    open spec fn spec_parse_rel(data: Seq<u8>, m: Loot, n: int) -> bool {
        &&& m.target@ == fixed_string_chars(data, 32)
        &&& n == 32
    }

    fn parse_lurk_message(data: &[u8]) -> (r: Result<(Loot, usize), ()>) {
        let mut cursor = ReadBufferCursor::new(data);
        proof {
            assert(data@.skip(0) =~= data@);
        }

        match cursor.parse_string(NAME_LENGTH) {
            Ok(t) => Ok((Loot { target: t }, NAME_LENGTH as usize)),
            Err(_) => Err(()),
        }
    }
}

/// The size bounds under which a `Loot` can be framed.
pub open spec fn loot_wire_wf(m: Loot) -> bool {
        true
}

/// The complete frame a `Loot` encodes to.
pub open spec fn loot_blob(m: Loot) -> Seq<u8> {
        seq![LOOT_TYPE] + fixed_bytes(encode_utf8(m.target@), 32)
}

impl LurkMessageBlobify for Loot {
    open spec fn wire_wf(&self) -> bool {
        loot_wire_wf(*self)
    }

    open spec fn spec_blob(&self) -> Seq<u8> {
        loot_blob(*self)
    }

    fn produce_lurk_message_blob(&self) -> (r: Vec<u8>) {
        let mut builder = OutputBuffer::new();

        builder.write_byte(Loot::message_type()).write_string_fixed(
            self.target.as_str(),
            NAME_LENGTH,
        );

        proof {
            assert(builder.data@ =~= self.spec_blob());
        }
        builder.data
    }
}

impl LurkMessageType for Loot {
    open spec fn spec_message_type() -> u8 {
        LOOT_TYPE
    }

    fn message_type() -> u8 {
        LOOT_TYPE
    }
}

//////////////////////////////////////////////////////////////////////////////
#[derive(Default, Clone, Copy)]
pub struct Start;

impl Start {
    pub fn new() -> Start {
        Start {  }
    }
}

impl LurkMessageParse<Start> for Start {
    open spec fn spec_parse_ok(data: Seq<u8>) -> bool {
        true
    }

    open spec fn spec_parse_rel(data: Seq<u8>, m: Start, n: int) -> bool {
        n == 0
    }

    fn parse_lurk_message(_data: &[u8]) -> (r: Result<(Start, usize), ()>) {
        Ok((Start {  }, 0))
    }
}

/// The size bounds under which a `Start` can be framed.
pub open spec fn start_wire_wf(m: Start) -> bool {
        true
}

/// The complete frame a `Start` encodes to.
pub open spec fn start_blob(m: Start) -> Seq<u8> {
        seq![START_TYPE]
}

impl LurkMessageBlobify for Start {
    open spec fn wire_wf(&self) -> bool {
        start_wire_wf(*self)
    }

    open spec fn spec_blob(&self) -> Seq<u8> {
        start_blob(*self)
    }

    fn produce_lurk_message_blob(&self) -> (r: Vec<u8>) {
        let mut builder = OutputBuffer::new();
        builder.write_byte(Start::message_type());
        proof {
            assert(builder.data@ =~= self.spec_blob());
        }
        builder.data
    }
}

impl LurkMessageType for Start {
    open spec fn spec_message_type() -> u8 {
        START_TYPE
    }

    fn message_type() -> u8 {
        START_TYPE
    }
}

//////////////////////////////////////////////////////////////////////////////

pub const ERROR_TYPE_OTHER: u8 = 0;
pub const ERROR_TYPE_BAD_ROOM: u8 = 1;
pub const ERROR_TYPE_PLAYER_EXISTS: u8 = 2;
pub const ERROR_TYPE_BAD_MONSTER: u8 = 3;
pub const ERROR_TYPE_STAT_ERROR: u8 = 4;
pub const ERROR_TYPE_NOT_READY: u8 = 5;
pub const ERROR_TYPE_NO_TARGET: u8 = 6;
pub const ERROR_TYPE_NO_FIGHT: u8 = 7;
pub const ERROR_TYPE_NO_PVP: u8 = 8;

#[derive(Clone)]
pub struct Error {
    pub error_code: u8,
    pub error_message: String,
}

impl Error {
    pub fn new(error_code: u8, error_message: String) -> (r: Result<Error, ()>)
        ensures
            r is Ok <==> encode_utf8(error_message@).len() < 0xFFFF,
            r matches Ok(m) ==> m == (Error { error_code, error_message }),
    {
        if error_message.as_str().as_bytes().len() < 0xFFFF {
            return Ok(Error { error_code, error_message });
        }

        Err(())
    }

    pub fn other(error_message: String) -> (r: Result<Error, ()>)
        ensures
            r is Ok <==> encode_utf8(error_message@).len() < 0xFFFF,
            r matches Ok(m) ==> m == (Error { error_code: ERROR_TYPE_OTHER, error_message }),
    {
        Error::new(ERROR_TYPE_OTHER, error_message)
    }

    pub fn bad_room(error_message: String) -> (r: Result<Error, ()>)
        ensures
            r is Ok <==> encode_utf8(error_message@).len() < 0xFFFF,
            r matches Ok(m) ==> m == (Error { error_code: ERROR_TYPE_BAD_ROOM, error_message }),
    {
        Error::new(ERROR_TYPE_BAD_ROOM, error_message)
    }

    pub fn player_exists(error_message: String) -> (r: Result<Error, ()>)
        ensures
            r is Ok <==> encode_utf8(error_message@).len() < 0xFFFF,
            r matches Ok(m) ==> m == (Error {
                error_code: ERROR_TYPE_PLAYER_EXISTS,
                error_message,
            }),
    {
        Error::new(ERROR_TYPE_PLAYER_EXISTS, error_message)
    }

    pub fn bad_monster(error_message: String) -> (r: Result<Error, ()>)
        ensures
            r is Ok <==> encode_utf8(error_message@).len() < 0xFFFF,
            r matches Ok(m) ==> m == (Error { error_code: ERROR_TYPE_BAD_MONSTER, error_message }),
    {
        Error::new(ERROR_TYPE_BAD_MONSTER, error_message)
    }

    pub fn stat_error(error_message: String) -> (r: Result<Error, ()>)
        ensures
            r is Ok <==> encode_utf8(error_message@).len() < 0xFFFF,
            r matches Ok(m) ==> m == (Error { error_code: ERROR_TYPE_STAT_ERROR, error_message }),
    {
        Error::new(ERROR_TYPE_STAT_ERROR, error_message)
    }

    pub fn not_ready(error_message: String) -> (r: Result<Error, ()>)
        ensures
            r is Ok <==> encode_utf8(error_message@).len() < 0xFFFF,
            r matches Ok(m) ==> m == (Error { error_code: ERROR_TYPE_NOT_READY, error_message }),
    {
        Error::new(ERROR_TYPE_NOT_READY, error_message)
    }

    pub fn no_target(error_message: String) -> (r: Result<Error, ()>)
        ensures
            r is Ok <==> encode_utf8(error_message@).len() < 0xFFFF,
            r matches Ok(m) ==> m == (Error { error_code: ERROR_TYPE_NO_TARGET, error_message }),
    {
        Error::new(ERROR_TYPE_NO_TARGET, error_message)
    }

    pub fn no_fight(error_message: String) -> (r: Result<Error, ()>)
        ensures
            r is Ok <==> encode_utf8(error_message@).len() < 0xFFFF,
            r matches Ok(m) ==> m == (Error { error_code: ERROR_TYPE_NO_FIGHT, error_message }),
    {
        Error::new(ERROR_TYPE_NO_FIGHT, error_message)
    }

    pub fn no_pvp(error_message: String) -> (r: Result<Error, ()>)
        ensures
            r is Ok <==> encode_utf8(error_message@).len() < 0xFFFF,
            r matches Ok(m) ==> m == (Error { error_code: ERROR_TYPE_NO_PVP, error_message }),
    {
        Error::new(ERROR_TYPE_NO_PVP, error_message)
    }
}

/// Whether an `Error` payload is complete: a code byte, then a var string.
pub open spec fn error_parse_ok(d: Seq<u8>) -> bool {
    &&& d.len() >= 1
    &&& var_string_at(d.skip(1))
}

/// What a parsed `Error` holds.
pub open spec fn error_parse_rel(d: Seq<u8>, m: Error, n: int) -> bool {
    &&& m.error_code == d[0]
    &&& m.error_message@ == var_string_chars(d.skip(1))
    &&& n == 3 + u16_of(d[1], d[2])
}

impl LurkMessageParse<Error> for Error {
    open spec fn spec_parse_ok(data: Seq<u8>) -> bool {
        error_parse_ok(data)
    }

    open spec fn spec_parse_rel(data: Seq<u8>, m: Error, n: int) -> bool {
        error_parse_rel(data, m, n)
    }

    fn parse_lurk_message(data: &[u8]) -> (r: Result<(Error, usize), ()>) {
        let mut cursor = ReadBufferCursor::new(data);

        let error_code = match cursor.get_byte() {
            Ok(v) => v,
            Err(_) => {
                return Err(());
            },
        };

        match cursor.parse_var_string() {
            Ok(t) => {
                let len = t.as_str().as_bytes().len();
                proof {
                    let rest = data@.skip(1);
                    vstd::utf8::decode_utf8_encode_utf8(
                        rest.subrange(2, 2 + u16_of(rest[0], rest[1]) as int),
                    );
                }
                let bytes_read = len + 1 + 2;
                Ok((Error { error_code, error_message: t }, bytes_read))
            },
            Err(_) => Err(()),
        }
    }
}

/// The size bounds under which a `Error` can be framed.
pub open spec fn error_wire_wf(m: Error) -> bool {
        encode_utf8(m.error_message@).len() <= 0xFFFF
}

/// The complete frame a `Error` encodes to.
pub open spec fn error_blob(m: Error) -> Seq<u8> {
        seq![ERROR_TYPE, m.error_code] + var_bytes(encode_utf8(m.error_message@))
}

impl LurkMessageBlobify for Error {
    open spec fn wire_wf(&self) -> bool {
        error_wire_wf(*self)
    }

    open spec fn spec_blob(&self) -> Seq<u8> {
        error_blob(*self)
    }

    fn produce_lurk_message_blob(&self) -> (r: Vec<u8>) {
        let mut builder = OutputBuffer::new();

        builder.write_byte(Error::message_type()).write_byte(self.error_code).write_string(
            self.error_message.as_str(),
        );

        proof {
            assert(builder.data@ =~= self.spec_blob());
        }
        builder.data
    }
}

impl LurkMessageType for Error {
    open spec fn spec_message_type() -> u8 {
        ERROR_TYPE
    }

    fn message_type() -> u8 {
        ERROR_TYPE
    }
}

//////////////////////////////////////////////////////////////////////////////
#[derive(Clone, Copy)]
pub struct Accept {
    pub action_type: u8,
}

impl Accept {
    pub fn new(action_type: u8) -> (r: Accept)
        ensures
            r.action_type == action_type,
    {
        Accept { action_type }
    }
}

impl LurkMessageParse<Accept> for Accept {
    open spec fn spec_parse_ok(data: Seq<u8>) -> bool {
        data.len() >= 1
    }

    open spec fn spec_parse_rel(data: Seq<u8>, m: Accept, n: int) -> bool {
        &&& m.action_type == data[0]
        &&& n == 1
    }

    fn parse_lurk_message(data: &[u8]) -> (r: Result<(Accept, usize), ()>) {
        let mut cursor = ReadBufferCursor::new(data);

        match cursor.get_byte() {
            Ok(t) => Ok((Accept { action_type: t }, 1)),
            Err(_) => Err(()),
        }
    }
}

/// The size bounds under which a `Accept` can be framed.
pub open spec fn accept_wire_wf(m: Accept) -> bool {
        true
}

/// The complete frame a `Accept` encodes to.
pub open spec fn accept_blob(m: Accept) -> Seq<u8> {
        seq![ACCEPT_TYPE, m.action_type]
}

impl LurkMessageBlobify for Accept {
    open spec fn wire_wf(&self) -> bool {
        accept_wire_wf(*self)
    }

    open spec fn spec_blob(&self) -> Seq<u8> {
        accept_blob(*self)
    }

    fn produce_lurk_message_blob(&self) -> (r: Vec<u8>) {
        let mut builder = OutputBuffer::new();

        builder.write_byte(Accept::message_type()).write_byte(self.action_type);

        proof {
            assert(builder.data@ =~= self.spec_blob());
        }
        builder.data
    }
}

impl LurkMessageType for Accept {
    open spec fn spec_message_type() -> u8 {
        ACCEPT_TYPE
    }

    fn message_type() -> u8 {
        ACCEPT_TYPE
    }
}

//////////////////////////////////////////////////////////////////////////////
#[derive(Clone)]
pub struct Room {
    pub room_number: u16,
    pub room_name: String,
    pub room_description: String,
}

impl Room {
    pub fn new(room_number: u16, room_name: String, room_description: String) -> (r: Result<
        Room,
        (),
    >)
        ensures
            r is Ok <==> (encode_utf8(room_name@).len() <= 32 && encode_utf8(
                room_description@,
            ).len() < 0xFFFF),
            r matches Ok(m) ==> m == (Room { room_number, room_name, room_description }),
    {
        if room_name.as_str().as_bytes().len() <= 32 && room_description.as_str().as_bytes().len()
            < 0xFFFF {
            return Ok(Room { room_number, room_name, room_description });
        }

        Err(())
    }
}

/// Whether a room-shaped payload (used by `Room` and `Connection`) is
/// complete: a u16 room number, a 32-byte name, then a var-string
/// description.
pub open spec fn room_parse_ok(d: Seq<u8>) -> bool {
    &&& d.len() >= 2
    &&& fixed_string_at(d.skip(2), 32)
    &&& var_string_at(d.skip(34))
}

/// Field values and consumed count of a room-shaped payload.
pub open spec fn room_parse_fields(
    d: Seq<u8>,
    room_number: u16,
    name: Seq<char>,
    description: Seq<char>,
    n: int,
) -> bool {
    &&& room_number == u16_of(d[0], d[1])
    &&& name == fixed_string_chars(d.skip(2), 32)
    &&& description == var_string_chars(d.skip(34))
    &&& n == 36 + u16_of(d[34], d[35])
}

impl LurkMessageParse<Room> for Room {
    open spec fn spec_parse_ok(data: Seq<u8>) -> bool {
        room_parse_ok(data)
    }

    open spec fn spec_parse_rel(data: Seq<u8>, m: Room, n: int) -> bool {
        room_parse_fields(data, m.room_number, m.room_name@, m.room_description@, n)
    }

    fn parse_lurk_message(data: &[u8]) -> (r: Result<(Room, usize), ()>) {
        let mut cursor = ReadBufferCursor::new(data);

        let room_number = match cursor.parse_u16l() {
            Ok(v) => v,
            Err(_) => {
                return Err(());
            },
        };
        let room_name = match cursor.parse_string(NAME_LENGTH) {
            Ok(v) => v,
            Err(_) => {
                return Err(());
            },
        };
        let description = match cursor.parse_var_string() {
            Ok(v) => v,
            Err(_) => {
                return Err(());
            },
        };

        let desc_len = description.as_str().as_bytes().len();
        proof {
            let rest = data@.skip(34);
            vstd::utf8::decode_utf8_encode_utf8(
                rest.subrange(2, 2 + u16_of(rest[0], rest[1]) as int),
            );
        }
        let bytes_read = 2 + NAME_LENGTH as usize + desc_len + 2;

        Ok((Room { room_number, room_name, room_description: description }, bytes_read))
    }
}

/// The size bounds under which a `Room` can be framed.
pub open spec fn room_wire_wf(m: Room) -> bool {
        encode_utf8(m.room_description@).len() <= 0xFFFF
}

/// The complete frame a `Room` encodes to.
pub open spec fn room_blob(m: Room) -> Seq<u8> {
        seq![ROOM_TYPE] + u16_le(m.room_number) + fixed_bytes(encode_utf8(m.room_name@), 32)
            + var_bytes(encode_utf8(m.room_description@))
}

impl LurkMessageBlobify for Room {
    open spec fn wire_wf(&self) -> bool {
        room_wire_wf(*self)
    }

    open spec fn spec_blob(&self) -> Seq<u8> {
        room_blob(*self)
    }

    fn produce_lurk_message_blob(&self) -> (r: Vec<u8>) {
        let mut builder = OutputBuffer::new();

        builder
            .write_byte(Room::message_type())
            .write_u16l(self.room_number)
            .write_string_fixed(self.room_name.as_str(), NAME_LENGTH)
            .write_string(self.room_description.as_str());

        proof {
            assert(builder.data@ =~= self.spec_blob());
        }
        builder.data
    }
}

impl LurkMessageType for Room {
    open spec fn spec_message_type() -> u8 {
        ROOM_TYPE
    }

    fn message_type() -> u8 {
        ROOM_TYPE
    }
}

//////////////////////////////////////////////////////////////////////////////
#[derive(Clone)]
pub struct Character {
    pub player_name: String,
    pub is_alive: bool,
    pub join_battles: bool,
    pub is_monster: bool,
    pub is_started: bool,
    pub is_ready: bool,
    pub attack: u16,
    pub defense: u16,
    pub regeneration: u16,
    pub health: i16,
    pub gold: u16,
    pub current_room_number: u16,
    pub description: String,
}

/// The flags byte carrying the five status bits; bits 0 to 2 stay zero.
pub open spec fn flags_byte(
    alive: bool,
    join: bool,
    monster: bool,
    started: bool,
    ready: bool,
) -> u8 {
    set_bit(set_bit(set_bit(set_bit(set_bit(0u8, 7, alive), 6, join), 5, monster), 4, started), 3, ready)
}

/// A byte with one bit forced to the given value.
pub open spec fn set_bit(f: u8, i: u8, b: bool) -> u8 {
    if b {
        f | (1u8 << i)
    } else {
        f & !(1u8 << i)
    }
}

impl Character {
    pub fn new(
        player_name: String,
        is_alive: bool,
        join_battles: bool,
        is_monster: bool,
        is_started: bool,
        is_ready: bool,
        attack: u16,
        defense: u16,
        regeneration: u16,
        health: i16,
        gold: u16,
        current_room_number: u16,
        description: String,
    ) -> (r: Result<Character, ()>)
        ensures
            r is Ok <==> (encode_utf8(player_name@).len() <= 32 && encode_utf8(description@).len()
                < 0xFFFF),
            r matches Ok(m) ==> m == (Character {
                player_name,
                is_alive,
                join_battles,
                is_monster,
                is_started,
                is_ready,
                attack,
                defense,
                regeneration,
                health,
                gold,
                current_room_number,
                description,
            }),
    {
        if player_name.as_str().as_bytes().len() <= 32 && description.as_str().as_bytes().len()
            < 0xFFFF {
            return Ok(
                Character {
                    player_name,
                    is_alive,
                    join_battles,
                    is_monster,
                    is_started,
                    is_ready,
                    attack,
                    defense,
                    regeneration,
                    health,
                    gold,
                    current_room_number,
                    description,
                },
            );
        }

        Err(())
    }
}

/// Whether a `Character` payload is complete: a 32-byte name, the flags
/// byte, six 16-bit stats, then a var-string description.
pub open spec fn character_parse_ok(d: Seq<u8>) -> bool {
    &&& fixed_string_at(d, 32)
    &&& d.len() >= 45
    &&& var_string_at(d.skip(45))
}

/// What a parsed `Character` holds.
pub open spec fn character_parse_rel(d: Seq<u8>, m: Character, n: int) -> bool {
    &&& m.player_name@ == fixed_string_chars(d, 32)
    &&& m.is_alive == BitField::spec_get(d[32], 7)
    &&& m.join_battles == BitField::spec_get(d[32], 6)
    &&& m.is_monster == BitField::spec_get(d[32], 5)
    &&& m.is_started == BitField::spec_get(d[32], 4)
    &&& m.is_ready == BitField::spec_get(d[32], 3)
    &&& m.attack == u16_of(d[33], d[34])
    &&& m.defense == u16_of(d[35], d[36])
    &&& m.regeneration == u16_of(d[37], d[38])
    &&& m.health == i16_of(d[39], d[40])
    &&& m.gold == u16_of(d[41], d[42])
    &&& m.current_room_number == u16_of(d[43], d[44])
    &&& m.description@ == var_string_chars(d.skip(45))
    &&& n == 47 + u16_of(d[45], d[46])
}

impl LurkMessageParse<Character> for Character {
    open spec fn spec_parse_ok(data: Seq<u8>) -> bool {
        character_parse_ok(data)
    }

    open spec fn spec_parse_rel(data: Seq<u8>, m: Character, n: int) -> bool {
        character_parse_rel(data, m, n)
    }

    fn parse_lurk_message(data: &[u8]) -> (r: Result<(Character, usize), ()>) {
        let mut cursor = ReadBufferCursor::new(data);
        proof {
            assert(data@.skip(0) =~= data@);
        }

        let player_name = match cursor.parse_string(NAME_LENGTH) {
            Ok(v) => v,
            Err(_) => {
                return Err(());
            },
        };
        let flags = match cursor.get_byte() {
            Ok(v) => v,
            Err(_) => {
                return Err(());
            },
        };
        let attack = match cursor.parse_u16l() {
            Ok(v) => v,
            Err(_) => {
                return Err(());
            },
        };
        let defense = match cursor.parse_u16l() {
            Ok(v) => v,
            Err(_) => {
                return Err(());
            },
        };
        let regen = match cursor.parse_u16l() {
            Ok(v) => v,
            Err(_) => {
                return Err(());
            },
        };
        let health = match cursor.parse_i16l() {
            Ok(v) => v,
            Err(_) => {
                return Err(());
            },
        };
        let gold = match cursor.parse_u16l() {
            Ok(v) => v,
            Err(_) => {
                return Err(());
            },
        };
        let room_number = match cursor.parse_u16l() {
            Ok(v) => v,
            Err(_) => {
                return Err(());
            },
        };
        let description = match cursor.parse_var_string() {
            Ok(v) => v,
            Err(_) => {
                return Err(());
            },
        };

        let bit_field = BitField { field: flags };
        let desc_len = description.as_str().as_bytes().len();
        proof {
            let rest = data@.skip(45);
            vstd::utf8::decode_utf8_encode_utf8(
                rest.subrange(2, 2 + u16_of(rest[0], rest[1]) as int),
            );
        }
        let bytes_read: usize = NAME_LENGTH as usize + 1 + (2 * 7) + desc_len;

        Ok(
            (
                Character {
                    player_name,
                    is_alive: bit_field.get(7),
                    join_battles: bit_field.get(6),
                    is_monster: bit_field.get(5),
                    is_started: bit_field.get(4),
                    is_ready: bit_field.get(3),
                    attack,
                    defense,
                    regeneration: regen,
                    health,
                    gold,
                    current_room_number: room_number,
                    description,
                },
                bytes_read,
            ),
        )
    }
}

/// The size bounds under which a `Character` can be framed.
pub open spec fn character_wire_wf(m: Character) -> bool {
        encode_utf8(m.description@).len() <= 0xFFFF
}

/// The complete frame a `Character` encodes to.
pub open spec fn character_blob(m: Character) -> Seq<u8> {
        seq![CHARACTER_TYPE] + fixed_bytes(encode_utf8(m.player_name@), 32) + seq![
            flags_byte(
                m.is_alive,
                m.join_battles,
                m.is_monster,
                m.is_started,
                m.is_ready,
            ),
        ] + u16_le(m.attack) + u16_le(m.defense) + u16_le(m.regeneration) + i16_le(
            m.health,
        ) + u16_le(m.gold) + u16_le(m.current_room_number) + var_bytes(
            encode_utf8(m.description@),
        )
}

impl LurkMessageBlobify for Character {
    open spec fn wire_wf(&self) -> bool {
        character_wire_wf(*self)
    }

    open spec fn spec_blob(&self) -> Seq<u8> {
        character_blob(*self)
    }

    fn produce_lurk_message_blob(&self) -> (r: Vec<u8>) {
        let mut bit_field = BitField { field: 0 };

        bit_field.configure(7, self.is_alive);
        bit_field.configure(6, self.join_battles);
        bit_field.configure(5, self.is_monster);
        bit_field.configure(4, self.is_started);
        bit_field.configure(3, self.is_ready);

        let mut builder = OutputBuffer::new();

        builder
            .write_byte(Character::message_type())
            .write_string_fixed(self.player_name.as_str(), NAME_LENGTH)
            .write_byte(bit_field.field)
            .write_u16l(self.attack)
            .write_u16l(self.defense)
            .write_u16l(self.regeneration)
            .write_i16l(self.health)
            .write_u16l(self.gold)
            .write_u16l(self.current_room_number)
            .write_string(self.description.as_str());

        proof {
            assert(builder.data@ =~= self.spec_blob());
        }
        builder.data
    }
}

impl LurkMessageType for Character {
    open spec fn spec_message_type() -> u8 {
        CHARACTER_TYPE
    }

    fn message_type() -> u8 {
        CHARACTER_TYPE
    }
}

//////////////////////////////////////////////////////////////////////////////
#[derive(Clone)]
pub struct Game {
    pub initial_points: u16,
    pub stat_limit: u16,
    pub description: String,
}

impl Game {
    pub fn new(initial_points: u16, stat_limit: u16, description: String) -> (r: Result<Game, ()>)
        ensures
            r is Ok <==> encode_utf8(description@).len() < 0xFFFF,
            r matches Ok(m) ==> m == (Game { initial_points, stat_limit, description }),
    {
        if description.as_str().as_bytes().len() < 0xFFFF {
            return Ok(Game { initial_points, stat_limit, description });
        }

        Err(())
    }
}

/// Whether a `Game` payload is complete: two u16 stats then a var string.
pub open spec fn game_parse_ok(d: Seq<u8>) -> bool {
    &&& d.len() >= 4
    &&& var_string_at(d.skip(4))
}

/// What a parsed `Game` holds.
pub open spec fn game_parse_rel(d: Seq<u8>, m: Game, n: int) -> bool {
    &&& m.initial_points == u16_of(d[0], d[1])
    &&& m.stat_limit == u16_of(d[2], d[3])
    &&& m.description@ == var_string_chars(d.skip(4))
    &&& n == 6 + u16_of(d[4], d[5])
}

impl LurkMessageParse<Game> for Game {
    open spec fn spec_parse_ok(data: Seq<u8>) -> bool {
        game_parse_ok(data)
    }

    open spec fn spec_parse_rel(data: Seq<u8>, m: Game, n: int) -> bool {
        game_parse_rel(data, m, n)
    }

    fn parse_lurk_message(data: &[u8]) -> (r: Result<(Game, usize), ()>) {
        let mut cursor = ReadBufferCursor::new(data);

        let initial_points = match cursor.parse_u16l() {
            Ok(v) => v,
            Err(_) => {
                return Err(());
            },
        };
        let stat_limit = match cursor.parse_u16l() {
            Ok(v) => v,
            Err(_) => {
                return Err(());
            },
        };
        let description = match cursor.parse_var_string() {
            Ok(v) => v,
            Err(_) => {
                return Err(());
            },
        };

        let desc_len = description.as_str().as_bytes().len();
        proof {
            let rest = data@.skip(4);
            vstd::utf8::decode_utf8_encode_utf8(
                rest.subrange(2, 2 + u16_of(rest[0], rest[1]) as int),
            );
        }
        let bytes_read = desc_len + (2 * 3);

        Ok((Game { initial_points, stat_limit, description }, bytes_read))
    }
}

/// The size bounds under which a `Game` can be framed.
pub open spec fn game_wire_wf(m: Game) -> bool {
        encode_utf8(m.description@).len() <= 0xFFFF
}

/// The complete frame a `Game` encodes to.
pub open spec fn game_blob(m: Game) -> Seq<u8> {
        seq![GAME_TYPE] + u16_le(m.initial_points) + u16_le(m.stat_limit) + var_bytes(
            encode_utf8(m.description@),
        )
}

impl LurkMessageBlobify for Game {
    open spec fn wire_wf(&self) -> bool {
        game_wire_wf(*self)
    }

    open spec fn spec_blob(&self) -> Seq<u8> {
        game_blob(*self)
    }

    fn produce_lurk_message_blob(&self) -> (r: Vec<u8>) {
        let mut builder = OutputBuffer::new();

        builder
            .write_byte(Game::message_type())
            .write_u16l(self.initial_points)
            .write_u16l(self.stat_limit)
            .write_string(self.description.as_str());

        proof {
            assert(builder.data@ =~= self.spec_blob());
        }
        builder.data
    }
}

impl LurkMessageType for Game {
    open spec fn spec_message_type() -> u8 {
        GAME_TYPE
    }

    fn message_type() -> u8 {
        GAME_TYPE
    }
}

//////////////////////////////////////////////////////////////////////////////
#[derive(Default, Clone, Copy)]
pub struct Leave;

impl Leave {
    pub fn new() -> Leave {
        Leave {  }
    }
}

/// The size bounds under which a `Leave` can be framed.
pub open spec fn leave_wire_wf(m: Leave) -> bool {
        true
}

/// The complete frame a `Leave` encodes to.
pub open spec fn leave_blob(m: Leave) -> Seq<u8> {
        seq![LEAVE_TYPE]
}

impl LurkMessageBlobify for Leave {
    open spec fn wire_wf(&self) -> bool {
        leave_wire_wf(*self)
    }

    open spec fn spec_blob(&self) -> Seq<u8> {
        leave_blob(*self)
    }

    fn produce_lurk_message_blob(&self) -> (r: Vec<u8>) {
        let mut builder = OutputBuffer::new();
        builder.write_byte(Leave::message_type());
        proof {
            assert(builder.data@ =~= self.spec_blob());
        }
        builder.data
    }
}

impl LurkMessageType for Leave {
    open spec fn spec_message_type() -> u8 {
        LEAVE_TYPE
    }

    fn message_type() -> u8 {
        LEAVE_TYPE
    }
}

//////////////////////////////////////////////////////////////////////////////
#[derive(Clone)]
pub struct Connection {
    pub room_number: u16,
    pub room_name: String,
    pub room_description: String,
}

impl Connection {
    pub fn new(room_number: u16, room_name: String, room_description: String) -> (r: Result<
        Connection,
        (),
    >)
        ensures
            r is Ok <==> (encode_utf8(room_name@).len() <= 32 && encode_utf8(
                room_description@,
            ).len() < 0xFFFF),
            r matches Ok(m) ==> m == (Connection { room_number, room_name, room_description }),
    {
        if room_name.as_str().as_bytes().len() <= 32 && room_description.as_str().as_bytes().len()
            < 0xFFFF {
            return Ok(Connection { room_number, room_name, room_description });
        }

        Err(())
    }
}

impl LurkMessageParse<Connection> for Connection {
    open spec fn spec_parse_ok(data: Seq<u8>) -> bool {
        room_parse_ok(data)
    }

    open spec fn spec_parse_rel(data: Seq<u8>, m: Connection, n: int) -> bool {
        room_parse_fields(data, m.room_number, m.room_name@, m.room_description@, n)
    }

    fn parse_lurk_message(data: &[u8]) -> (r: Result<(Connection, usize), ()>) {
        let mut cursor = ReadBufferCursor::new(data);

        let room_number = match cursor.parse_u16l() {
            Ok(v) => v,
            Err(_) => {
                return Err(());
            },
        };
        let room_name = match cursor.parse_string(NAME_LENGTH) {
            Ok(v) => v,
            Err(_) => {
                return Err(());
            },
        };
        let description = match cursor.parse_var_string() {
            Ok(v) => v,
            Err(_) => {
                return Err(());
            },
        };

        let desc_len = description.as_str().as_bytes().len();
        proof {
            let rest = data@.skip(34);
            vstd::utf8::decode_utf8_encode_utf8(
                rest.subrange(2, 2 + u16_of(rest[0], rest[1]) as int),
            );
        }
        let bytes_read = desc_len + NAME_LENGTH as usize + 2 + 2;

        Ok((Connection { room_number, room_name, room_description: description }, bytes_read))
    }
}

/// The size bounds under which a `Connection` can be framed.
pub open spec fn connection_wire_wf(m: Connection) -> bool {
        encode_utf8(m.room_description@).len() <= 0xFFFF
}

/// The complete frame a `Connection` encodes to.
pub open spec fn connection_blob(m: Connection) -> Seq<u8> {
        seq![CONNECTION_TYPE] + u16_le(m.room_number) + fixed_bytes(
            encode_utf8(m.room_name@),
            32,
        ) + var_bytes(encode_utf8(m.room_description@))
}

impl LurkMessageBlobify for Connection {
    open spec fn wire_wf(&self) -> bool {
        connection_wire_wf(*self)
    }

    open spec fn spec_blob(&self) -> Seq<u8> {
        connection_blob(*self)
    }

    fn produce_lurk_message_blob(&self) -> (r: Vec<u8>) {
        let mut builder = OutputBuffer::new();

        builder
            .write_byte(Connection::message_type())
            .write_u16l(self.room_number)
            .write_string_fixed(self.room_name.as_str(), NAME_LENGTH)
            .write_string(self.room_description.as_str());

        proof {
            assert(builder.data@ =~= self.spec_blob());
        }
        builder.data
    }
}

impl LurkMessageType for Connection {
    open spec fn spec_message_type() -> u8 {
        CONNECTION_TYPE
    }

    fn message_type() -> u8 {
        CONNECTION_TYPE
    }
}

} // verus!
