//! Laws of the codec, stated over the byte-layout model and proved once for
//! every message and every buffer: the frame-size computation, the round
//! trip through encode and decode, partial-buffer safety, and fixed-string
//! truncation.

use vstd::prelude::*;

use crate::protocol::codec::{
    decode_outcome, payload_parse_ok, LurkMessageReadResult,
};
use crate::protocol::extractor::frame_payload_len;
use crate::protocol::protocol_message::{
    flags_byte, lurk_message_blob, lurk_message_view_eq, lurk_message_wf, LurkMessage,
};
use crate::protocol::wire::{
    fixed_bytes, lemma_nul_pos_unique, lemma_trunc_nul_fixed, lemma_u16_le_of, lemma_i16_le_of,
    nul_free, nul_pos, trunc_nul, u16_le, u16_of,
};
use crate::util::BitField;

verus! {

use vstd::utf8::{encode_utf8, encode_utf8_decode_utf8, encode_utf8_valid_utf8};

/// The full field bounds of one message under which its frame decodes back
/// to it: names fit their 32-byte fields and hold no NUL byte (a NUL would
/// truncate them on read), bodies and descriptions fit a u16 length, and a
/// `Message` body holds no NUL byte (its reader also truncates at NUL).
pub open spec fn lurk_message_valid(m: LurkMessage) -> bool {
    match m {
        LurkMessage::Message(x) => {
            &&& encode_utf8(x.message@).len() <= 0xFFFF
            &&& nul_free(encode_utf8(x.message@))
            &&& encode_utf8(x.sender@).len() <= 32
            &&& nul_free(encode_utf8(x.sender@))
            &&& encode_utf8(x.receiver@).len() <= 32
            &&& nul_free(encode_utf8(x.receiver@))
        },
        LurkMessage::ChangeRoom(x) => true,
        LurkMessage::Fight(x) => true,
        LurkMessage::PvpFight(x) => {
            &&& encode_utf8(x.target@).len() <= 32
            &&& nul_free(encode_utf8(x.target@))
        },
        LurkMessage::Loot(x) => {
            &&& encode_utf8(x.target@).len() <= 32
            &&& nul_free(encode_utf8(x.target@))
        },
        LurkMessage::Start(x) => true,
        LurkMessage::Error(x) => encode_utf8(x.error_message@).len() <= 0xFFFF,
        LurkMessage::Accept(x) => true,
        LurkMessage::Room(x) => {
            &&& encode_utf8(x.room_name@).len() <= 32
            &&& nul_free(encode_utf8(x.room_name@))
            &&& encode_utf8(x.room_description@).len() <= 0xFFFF
        },
        LurkMessage::Character(x) => {
            &&& encode_utf8(x.player_name@).len() <= 32
            &&& nul_free(encode_utf8(x.player_name@))
            &&& encode_utf8(x.description@).len() <= 0xFFFF
        },
        LurkMessage::Game(x) => encode_utf8(x.description@).len() <= 0xFFFF,
        LurkMessage::Leave(x) => true,
        LurkMessage::Connection(x) => {
            &&& encode_utf8(x.room_name@).len() <= 32
            &&& nul_free(encode_utf8(x.room_name@))
            &&& encode_utf8(x.room_description@).len() <= 0xFFFF
        },
    }
}

/// A message within the full field bounds can be framed.
pub proof fn lemma_valid_is_wf(m: LurkMessage)
    requires
        lurk_message_valid(m),
    ensures
        lurk_message_wf(m),
{
}

/// Fixed-string truncation: reading a fixed field of capacity `n` written
/// from `b` (truncate to `n`, NUL-pad) gives `b` truncated to `n` bytes and
/// further at its first NUL. A value with an embedded NUL loses its tail.
pub proof fn lemma_fixed_string_truncation(b: Seq<u8>, n: nat)
    ensures
        b.len() >= n ==> trunc_nul(fixed_bytes(b, n)) == trunc_nul(b.take(n as int)),
        b.len() <= n ==> trunc_nul(fixed_bytes(b, n)) == trunc_nul(b),
{
    let f = fixed_bytes(b, n);
    if b.len() >= n {
        let t = b.take(n as int);
        assert(f =~= t);
        if b.len() == n {
            assert(t =~= b);
        }
    } else {
        let t = b;
        let p = nul_pos(b);
        crate::protocol::wire::lemma_nul_pos(b);
        if p < b.len() {
            lemma_nul_pos_unique(f, p);
        } else {
            lemma_nul_pos_unique(f, b.len() as int);
        }
        assert(trunc_nul(f) =~= trunc_nul(t));
    }
}

/// The five status bits land on bits 7 down to 3 of the flags byte, and the
/// reserved bits 0 to 2 stay zero.
pub proof fn lemma_flags_byte_bits(a: bool, j: bool, mo: bool, s: bool, r: bool)
    ensures
        BitField::spec_get(flags_byte(a, j, mo, s, r), 7) == a,
        BitField::spec_get(flags_byte(a, j, mo, s, r), 6) == j,
        BitField::spec_get(flags_byte(a, j, mo, s, r), 5) == mo,
        BitField::spec_get(flags_byte(a, j, mo, s, r), 4) == s,
        BitField::spec_get(flags_byte(a, j, mo, s, r), 3) == r,
        flags_byte(a, j, mo, s, r) & 0x07 == 0,
{
    let f = flags_byte(a, j, mo, s, r);
    assert((f & (1u8 << 7u8) != 0) == a && (f & (1u8 << 6u8) != 0) == j && (f & (1u8 << 5u8) != 0)
        == mo && (f & (1u8 << 4u8) != 0) == s && (f & (1u8 << 3u8) != 0) == r && f & 0x07 == 0)
        by (bit_vector)
        requires f == flags_byte(a, j, mo, s, r);
}

/// Every frame announces its own size: the type byte is a known kind, and
/// the frame-size computation on the payload says exactly the payload's
/// length.
#[verifier::rlimit(100)]
pub proof fn lemma_blob_frame_len(m: LurkMessage)
    requires
        lurk_message_wf(m),
    ensures
        lurk_message_blob(m).len() >= 1,
        1 <= lurk_message_blob(m)[0] <= 13,
        frame_payload_len(lurk_message_blob(m)[0], lurk_message_blob(m).skip(1)) == Some(
            lurk_message_blob(m).len() - 1,
        ),
{
    let b = lurk_message_blob(m);
    let d = b.skip(1);
    match m {
        LurkMessage::Message(x) => {
            let mb = encode_utf8(x.message@);
            let len = mb.len() as u16;
            assert(d =~= u16_le(len) + fixed_bytes(encode_utf8(x.receiver@), 32) + fixed_bytes(
                encode_utf8(x.sender@),
                32,
            ) + mb);
            lemma_u16_le_of(len);
            assert(d[0] == u16_le(len)[0] && d[1] == u16_le(len)[1]);
            assert(u16_of(d[0], d[1]) == len);
            assert(d.len() == 66 + len);
        },
        LurkMessage::ChangeRoom(x) => {
            assert(d =~= u16_le(x.room_number));
        },
        LurkMessage::Fight(x) => {
            assert(d =~= Seq::<u8>::empty());
        },
        LurkMessage::PvpFight(x) => {
            assert(d =~= fixed_bytes(encode_utf8(x.target@), 32));
        },
        LurkMessage::Loot(x) => {
            assert(d =~= fixed_bytes(encode_utf8(x.target@), 32));
        },
        LurkMessage::Start(x) => {
            assert(d =~= Seq::<u8>::empty());
        },
        LurkMessage::Error(x) => {
            let tb = encode_utf8(x.error_message@);
            let len = tb.len() as u16;
            assert(d =~= seq![x.error_code] + u16_le(len) + tb);
            lemma_u16_le_of(len);
            assert(d[1] == u16_le(len)[0] && d[2] == u16_le(len)[1]);
            assert(u16_of(d[1], d[2]) == len);
            assert(d.len() == 3 + len);
        },
        LurkMessage::Accept(x) => {
            assert(d =~= seq![x.action_type]);
        },
        LurkMessage::Room(x) => {
            let db = encode_utf8(x.room_description@);
            let len = db.len() as u16;
            assert(d =~= u16_le(x.room_number) + fixed_bytes(encode_utf8(x.room_name@), 32)
                + u16_le(len) + db);
            lemma_u16_le_of(len);
            assert(d[34] == u16_le(len)[0] && d[35] == u16_le(len)[1]);
            assert(u16_of(d[34], d[35]) == len);
            assert(d.len() == 36 + len);
        },
        LurkMessage::Character(x) => {
            let db = encode_utf8(x.description@);
            let len = db.len() as u16;
            let flags = flags_byte(
                x.is_alive,
                x.join_battles,
                x.is_monster,
                x.is_started,
                x.is_ready,
            );
            assert(d =~= fixed_bytes(encode_utf8(x.player_name@), 32) + seq![flags] + u16_le(
                x.attack,
            ) + u16_le(x.defense) + u16_le(x.regeneration) + crate::protocol::wire::i16_le(
                x.health,
            ) + u16_le(x.gold) + u16_le(x.current_room_number) + u16_le(len) + db);
            lemma_u16_le_of(len);
            assert(d[45] == u16_le(len)[0] && d[46] == u16_le(len)[1]);
            assert(u16_of(d[45], d[46]) == len);
            assert(d.len() == 47 + len);
        },
        LurkMessage::Game(x) => {
            let db = encode_utf8(x.description@);
            let len = db.len() as u16;
            assert(d =~= u16_le(x.initial_points) + u16_le(x.stat_limit) + u16_le(len) + db);
            lemma_u16_le_of(len);
            assert(d[4] == u16_le(len)[0] && d[5] == u16_le(len)[1]);
            assert(u16_of(d[4], d[5]) == len);
            assert(d.len() == 6 + len);
        },
        LurkMessage::Leave(x) => {
            assert(d =~= Seq::<u8>::empty());
        },
        LurkMessage::Connection(x) => {
            let db = encode_utf8(x.room_description@);
            let len = db.len() as u16;
            assert(d =~= u16_le(x.room_number) + fixed_bytes(encode_utf8(x.room_name@), 32)
                + u16_le(len) + db);
            lemma_u16_le_of(len);
            assert(d[34] == u16_le(len)[0] && d[35] == u16_le(len)[1]);
            assert(u16_of(d[34], d[35]) == len);
            assert(d.len() == 36 + len);
        },
    }
}

} // verus!

verus! {

/// Codec round-trip: a buffer holding exactly one message's frame decodes
/// back to a message with the same field values, consuming the whole
/// buffer. This holds for every kind and every field assignment within the
/// wire bounds.
#[verifier::rlimit(100)]
pub proof fn lemma_codec_round_trip(m: LurkMessage, r: LurkMessageReadResult, dfinal: Seq<u8>)
    requires
        lurk_message_valid(m),
        decode_outcome(lurk_message_blob(m), r, dfinal),
    ensures
        r matches Ok(o) && o matches Some(m2) && lurk_message_view_eq(m2, m),
        dfinal == Seq::<u8>::empty(),
{
    lemma_valid_is_wf(m);
    lemma_blob_frame_len(m);
    let b = lurk_message_blob(m);
    let d = b.skip(1);
    let k = b.len() - 1;
    assert(d.take(k) =~= d);
    assert(b.skip(1 + k) =~= Seq::<u8>::empty());

    match m {
        LurkMessage::Message(x) => {
            let mb = encode_utf8(x.message@);
            let len = mb.len() as u16;
            let rb = encode_utf8(x.receiver@);
            let sb = encode_utf8(x.sender@);
            assert(d =~= u16_le(len) + fixed_bytes(rb, 32) + fixed_bytes(sb, 32) + mb);
            lemma_u16_le_of(len);
            assert(u16_of(d[0], d[1]) == len);
            assert(d.skip(2).take(32) =~= fixed_bytes(rb, 32));
            assert(d.skip(34).take(32) =~= fixed_bytes(sb, 32));
            assert(d.skip(66).take(len as int) =~= mb);
            lemma_trunc_nul_fixed(rb, 32);
            lemma_trunc_nul_fixed(sb, 32);
            crate::protocol::wire::lemma_trunc_nul_clean(mb);
            encode_utf8_valid_utf8(x.receiver@);
            encode_utf8_valid_utf8(x.sender@);
            encode_utf8_valid_utf8(x.message@);
            encode_utf8_decode_utf8(x.receiver@);
            encode_utf8_decode_utf8(x.sender@);
            encode_utf8_decode_utf8(x.message@);
            assert(payload_parse_ok(b[0], d));
        },
        LurkMessage::ChangeRoom(x) => {
            assert(d =~= u16_le(x.room_number));
            lemma_u16_le_of(x.room_number);
            assert(payload_parse_ok(b[0], d));
        },
        LurkMessage::Fight(x) => {
            assert(payload_parse_ok(b[0], d));
        },
        LurkMessage::PvpFight(x) => {
            let tb = encode_utf8(x.target@);
            assert(d =~= fixed_bytes(tb, 32));
            assert(d.take(32) =~= fixed_bytes(tb, 32));
            lemma_trunc_nul_fixed(tb, 32);
            encode_utf8_valid_utf8(x.target@);
            encode_utf8_decode_utf8(x.target@);
            assert(payload_parse_ok(b[0], d));
        },
        LurkMessage::Loot(x) => {
            let tb = encode_utf8(x.target@);
            assert(d =~= fixed_bytes(tb, 32));
            assert(d.take(32) =~= fixed_bytes(tb, 32));
            lemma_trunc_nul_fixed(tb, 32);
            encode_utf8_valid_utf8(x.target@);
            encode_utf8_decode_utf8(x.target@);
            assert(payload_parse_ok(b[0], d));
        },
        LurkMessage::Start(x) => {
            assert(payload_parse_ok(b[0], d));
        },
        LurkMessage::Error(x) => {
            let tb = encode_utf8(x.error_message@);
            let len = tb.len() as u16;
            assert(d =~= seq![x.error_code] + u16_le(len) + tb);
            lemma_u16_le_of(len);
            assert(d.skip(1) =~= u16_le(len) + tb);
            assert(d.skip(1)[0] == u16_le(len)[0] && d.skip(1)[1] == u16_le(len)[1]);
            assert(u16_of(d.skip(1)[0], d.skip(1)[1]) == len);
            assert(d.skip(1).subrange(2, 2 + len as int) =~= tb);
            encode_utf8_valid_utf8(x.error_message@);
            encode_utf8_decode_utf8(x.error_message@);
            assert(payload_parse_ok(b[0], d));
        },
        LurkMessage::Accept(x) => {
            assert(d =~= seq![x.action_type]);
            assert(payload_parse_ok(b[0], d));
        },
        LurkMessage::Room(x) => {
            let nb = encode_utf8(x.room_name@);
            let db = encode_utf8(x.room_description@);
            let len = db.len() as u16;
            assert(d =~= u16_le(x.room_number) + fixed_bytes(nb, 32) + u16_le(len) + db);
            lemma_u16_le_of(x.room_number);
            lemma_u16_le_of(len);
            assert(u16_of(d[0], d[1]) == x.room_number);
            assert(d.skip(2).take(32) =~= fixed_bytes(nb, 32));
            assert(d.skip(34) =~= u16_le(len) + db);
            assert(d.skip(34)[0] == u16_le(len)[0] && d.skip(34)[1] == u16_le(len)[1]);
            assert(u16_of(d.skip(34)[0], d.skip(34)[1]) == len);
            assert(d.skip(34).subrange(2, 2 + len as int) =~= db);
            lemma_trunc_nul_fixed(nb, 32);
            encode_utf8_valid_utf8(x.room_name@);
            encode_utf8_valid_utf8(x.room_description@);
            encode_utf8_decode_utf8(x.room_name@);
            encode_utf8_decode_utf8(x.room_description@);
            assert(payload_parse_ok(b[0], d));
        },
        LurkMessage::Character(x) => {
            let nb = encode_utf8(x.player_name@);
            let db = encode_utf8(x.description@);
            let len = db.len() as u16;
            let flags = flags_byte(
                x.is_alive,
                x.join_battles,
                x.is_monster,
                x.is_started,
                x.is_ready,
            );
            assert(d =~= fixed_bytes(nb, 32) + seq![flags] + u16_le(x.attack) + u16_le(x.defense)
                + u16_le(x.regeneration) + crate::protocol::wire::i16_le(x.health) + u16_le(x.gold)
                + u16_le(x.current_room_number) + u16_le(len) + db);
            assert(d.take(32) =~= fixed_bytes(nb, 32));
            assert(d[32] == flags);
            lemma_flags_byte_bits(x.is_alive, x.join_battles, x.is_monster, x.is_started, x.is_ready);
            lemma_u16_le_of(x.attack);
            lemma_u16_le_of(x.defense);
            lemma_u16_le_of(x.regeneration);
            lemma_i16_le_of(x.health);
            lemma_u16_le_of(x.gold);
            lemma_u16_le_of(x.current_room_number);
            lemma_u16_le_of(len);
            assert(d[33] == u16_le(x.attack)[0] && d[34] == u16_le(x.attack)[1]);
            assert(d[35] == u16_le(x.defense)[0] && d[36] == u16_le(x.defense)[1]);
            assert(d[37] == u16_le(x.regeneration)[0] && d[38] == u16_le(x.regeneration)[1]);
            assert(d[39] == crate::protocol::wire::i16_le(x.health)[0] && d[40]
                == crate::protocol::wire::i16_le(x.health)[1]);
            assert(d[41] == u16_le(x.gold)[0] && d[42] == u16_le(x.gold)[1]);
            assert(d[43] == u16_le(x.current_room_number)[0] && d[44] == u16_le(
                x.current_room_number,
            )[1]);
            assert(d.skip(45) =~= u16_le(len) + db);
            assert(d.skip(45)[0] == u16_le(len)[0] && d.skip(45)[1] == u16_le(len)[1]);
            assert(u16_of(d.skip(45)[0], d.skip(45)[1]) == len);
            assert(d.skip(45).subrange(2, 2 + len as int) =~= db);
            lemma_trunc_nul_fixed(nb, 32);
            encode_utf8_valid_utf8(x.player_name@);
            encode_utf8_valid_utf8(x.description@);
            encode_utf8_decode_utf8(x.player_name@);
            encode_utf8_decode_utf8(x.description@);
            assert(payload_parse_ok(b[0], d));
        },
        LurkMessage::Game(x) => {
            let db = encode_utf8(x.description@);
            let len = db.len() as u16;
            assert(d =~= u16_le(x.initial_points) + u16_le(x.stat_limit) + u16_le(len) + db);
            lemma_u16_le_of(x.initial_points);
            lemma_u16_le_of(x.stat_limit);
            lemma_u16_le_of(len);
            assert(u16_of(d[0], d[1]) == x.initial_points);
            assert(d[2] == u16_le(x.stat_limit)[0] && d[3] == u16_le(x.stat_limit)[1]);
            assert(d.skip(4) =~= u16_le(len) + db);
            assert(d.skip(4)[0] == u16_le(len)[0] && d.skip(4)[1] == u16_le(len)[1]);
            assert(u16_of(d.skip(4)[0], d.skip(4)[1]) == len);
            assert(d.skip(4).subrange(2, 2 + len as int) =~= db);
            encode_utf8_valid_utf8(x.description@);
            encode_utf8_decode_utf8(x.description@);
            assert(payload_parse_ok(b[0], d));
        },
        LurkMessage::Leave(x) => {
            assert(payload_parse_ok(b[0], d));
        },
        LurkMessage::Connection(x) => {
            let nb = encode_utf8(x.room_name@);
            let db = encode_utf8(x.room_description@);
            let len = db.len() as u16;
            assert(d =~= u16_le(x.room_number) + fixed_bytes(nb, 32) + u16_le(len) + db);
            lemma_u16_le_of(x.room_number);
            lemma_u16_le_of(len);
            assert(u16_of(d[0], d[1]) == x.room_number);
            assert(d.skip(2).take(32) =~= fixed_bytes(nb, 32));
            assert(d.skip(34) =~= u16_le(len) + db);
            assert(d.skip(34)[0] == u16_le(len)[0] && d.skip(34)[1] == u16_le(len)[1]);
            assert(u16_of(d.skip(34)[0], d.skip(34)[1]) == len);
            assert(d.skip(34).subrange(2, 2 + len as int) =~= db);
            lemma_trunc_nul_fixed(nb, 32);
            encode_utf8_valid_utf8(x.room_name@);
            encode_utf8_valid_utf8(x.room_description@);
            encode_utf8_decode_utf8(x.room_name@);
            encode_utf8_decode_utf8(x.room_description@);
            assert(payload_parse_ok(b[0], d));
        },
    }
}

/// Partial-buffer safety: a buffer holding any proper prefix of a frame
/// decodes to nothing and is left untouched; only the complete frame is ever
/// consumed.
#[verifier::rlimit(100)]
pub proof fn lemma_partial_buffer_safety(
    m: LurkMessage,
    i: int,
    r: LurkMessageReadResult,
    dfinal: Seq<u8>,
)
    requires
        lurk_message_wf(m),
        0 <= i < lurk_message_blob(m).len(),
        decode_outcome(lurk_message_blob(m).take(i), r, dfinal),
    ensures
        r matches Ok(o) && o is None,
        dfinal == lurk_message_blob(m).take(i),
{
    let b = lurk_message_blob(m);
    let pre = b.take(i);
    lemma_blob_frame_len(m);
    if i == 0 {
        assert(pre =~= Seq::<u8>::empty());
    } else {
        let d = b.skip(1);
        let q = pre.skip(1);
        assert(pre[0] == b[0]);
        assert(q =~= d.take(i - 1));
        assert(q.len() < d.len());
        assert(forall|j: int| 0 <= j < q.len() ==> q[j] == #[trigger] d[j]);
        assert(frame_payload_len(pre[0], q) is None);
    }
}

} // verus!
