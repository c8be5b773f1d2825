//! The blocking read channel: pulls one frame at a time off a byte stream,
//! returning the kind and the raw payload bytes.

use vstd::prelude::*;

use crate::protocol::extraction::{extract_len, ExtractNode, Extractor};
use crate::protocol::extractor::frame_payload_len;
use crate::protocol::protocol_message::{spec_code_of, LurkMessageKind};
use crate::protocol::stream::ByteStream;

verus! {

/// The chunk pattern of each kind's payload.
pub open spec fn kind_pattern(kind: LurkMessageKind) -> Seq<ExtractNode> {
    match kind {
        LurkMessageKind::Message => seq![ExtractNode::FracturedVarString(64u16)],
        LurkMessageKind::ChangeRoom => seq![ExtractNode::ByteChunk(2u16)],
        LurkMessageKind::Fight => Seq::<ExtractNode>::empty(),
        LurkMessageKind::PvPFight => seq![ExtractNode::FixedStringChunk],
        LurkMessageKind::Loot => seq![ExtractNode::FixedStringChunk],
        LurkMessageKind::Start => Seq::<ExtractNode>::empty(),
        LurkMessageKind::Error => seq![ExtractNode::ByteChunk(1u16), ExtractNode::VarStringChunk],
        LurkMessageKind::Accept => seq![ExtractNode::ByteChunk(1u16)],
        LurkMessageKind::Room => seq![
            ExtractNode::ByteChunk(2u16),
            ExtractNode::FixedStringChunk,
            ExtractNode::VarStringChunk,
        ],
        LurkMessageKind::Character => seq![
            ExtractNode::FixedStringChunk,
            ExtractNode::ByteChunk(13u16),
            ExtractNode::VarStringChunk,
        ],
        LurkMessageKind::Game => seq![
            ExtractNode::ByteChunk(4u16),
            ExtractNode::VarStringChunk,
        ],
        LurkMessageKind::Leave => Seq::<ExtractNode>::empty(),
        LurkMessageKind::Connection => seq![
            ExtractNode::ByteChunk(2u16),
            ExtractNode::FixedStringChunk,
            ExtractNode::VarStringChunk,
        ],
    }
}

/// A kind's chunk pattern takes from a payload exactly the bytes the kind's
/// frame layout announces.
pub proof fn lemma_pattern_matches_frame(kind: LurkMessageKind, input: Seq<u8>)
    ensures
        extract_len(kind_pattern(kind), input) == frame_payload_len(spec_code_of(kind), input),
{
    reveal_with_fuel(extract_len, 5);
    let p = kind_pattern(kind);
    match kind {
        LurkMessageKind::Message => {
            assert(p.drop_first() =~= Seq::<ExtractNode>::empty());
        },
        LurkMessageKind::ChangeRoom => {
            assert(p.drop_first() =~= Seq::<ExtractNode>::empty());
        },
        LurkMessageKind::Fight => {},
        LurkMessageKind::PvPFight => {
            assert(p.drop_first() =~= Seq::<ExtractNode>::empty());
        },
        LurkMessageKind::Loot => {
            assert(p.drop_first() =~= Seq::<ExtractNode>::empty());
        },
        LurkMessageKind::Start => {},
        LurkMessageKind::Error => {
            assert(p.drop_first() =~= seq![ExtractNode::VarStringChunk]);
            assert(p.drop_first().drop_first() =~= Seq::<ExtractNode>::empty());
            if 1 <= input.len() {
                assert(input.skip(1)[0] == input[1] && 2 <= input.skip(1).len() ==> input.skip(
                    1,
                )[1] == input[2]);
            }
        },
        LurkMessageKind::Accept => {
            assert(p.drop_first() =~= Seq::<ExtractNode>::empty());
        },
        LurkMessageKind::Room => {
            assert(p.drop_first() =~= seq![
                ExtractNode::FixedStringChunk,
                ExtractNode::VarStringChunk,
            ]);
            assert(p.drop_first().drop_first() =~= seq![ExtractNode::VarStringChunk]);
            assert(p.drop_first().drop_first().drop_first() =~= Seq::<ExtractNode>::empty());
            if input.len() >= 34 {
                assert(input.skip(2).skip(32) =~= input.skip(34));
            }
        },
        LurkMessageKind::Character => {
            assert(p.drop_first() =~= seq![
                ExtractNode::ByteChunk(13u16),
                ExtractNode::VarStringChunk,
            ]);
            assert(p.drop_first().drop_first() =~= seq![ExtractNode::VarStringChunk]);
            assert(p.drop_first().drop_first().drop_first() =~= Seq::<ExtractNode>::empty());
            if input.len() >= 45 {
                assert(input.skip(32).skip(13) =~= input.skip(45));
            }
        },
        LurkMessageKind::Game => {
            assert(p.drop_first() =~= seq![ExtractNode::VarStringChunk]);
            assert(p.drop_first().drop_first() =~= Seq::<ExtractNode>::empty());
        },
        LurkMessageKind::Leave => {},
        LurkMessageKind::Connection => {
            assert(p.drop_first() =~= seq![
                ExtractNode::FixedStringChunk,
                ExtractNode::VarStringChunk,
            ]);
            assert(p.drop_first().drop_first() =~= seq![ExtractNode::VarStringChunk]);
            assert(p.drop_first().drop_first().drop_first() =~= Seq::<ExtractNode>::empty());
            if input.len() >= 34 {
                assert(input.skip(2).skip(32) =~= input.skip(34));
            }
        },
    }
}

/// A channel that reads whole frames from a byte stream.
pub struct LurkReadChannel<'a> {
    read_source: &'a mut ByteStream,
}

impl<'a> LurkReadChannel<'a> {
    /// The stream the channel reads from.
    pub closed spec fn source(&self) -> ByteStream {
        *self.read_source
    }

    pub fn new(source: &'a mut ByteStream) -> (r: LurkReadChannel<'a>)
        ensures
            r.source() == *old(source),
    {
        LurkReadChannel { read_source: source }
    }

    /// Reads one frame: the type byte names the kind, and the kind's pattern
    /// says how many payload bytes follow. Fails on an unknown type byte or
    /// a stream that runs dry.
    pub fn read_next(&mut self) -> (r: Result<(LurkMessageKind, Vec<u8>), ()>)
        requires
            old(self).source().wf(),
        ensures
            final(self).source().wf(),
            final(self).source().buf() == old(self).source().buf(),
            final(self).source().position() >= old(self).source().position(),
            ({
                let rest = old(self).source().rest();
                if rest.len() >= 1 && 1 <= rest[0] <= 13 {
                    match frame_payload_len(rest[0], rest.skip(1)) {
                        Some(k) => {
                            &&& r matches Ok((kind, v)) && spec_code_of(kind) == rest[0] && v@
                                == rest.skip(1).take(k)
                            &&& final(self).source().position() == old(self).source().position() + 1
                                + k
                        },
                        None => r is Err,
                    }
                } else {
                    r is Err
                }
            }),
    {
        proof {
            old(self).source().wf_bounds();
        }
        let type_byte = match self.read_type_byte() {
            Ok(b) => b,
            Err(_) => {
                return Err(());
            },
        };
        let message_kind = match LurkMessageKind::from_code(type_byte) {
            Ok(k) => k,
            Err(_) => {
                return Err(());
            },
        };

        let extractor = match message_kind {
            LurkMessageKind::Message => Extractor::message(),
            LurkMessageKind::ChangeRoom => Extractor::change_room(),
            LurkMessageKind::Fight => Extractor::fight(),
            LurkMessageKind::PvPFight => Extractor::pvp_fight(),
            LurkMessageKind::Loot => Extractor::loot(),
            LurkMessageKind::Start => Extractor::start(),
            LurkMessageKind::Error => Extractor::error(),
            LurkMessageKind::Accept => Extractor::accept(),
            LurkMessageKind::Room => Extractor::room(),
            LurkMessageKind::Character => Extractor::character(),
            LurkMessageKind::Game => Extractor::game(),
            LurkMessageKind::Leave => Extractor::leave(),
            LurkMessageKind::Connection => Extractor::connection(),
        };

        proof {
            assert(self.source().rest() =~= old(self).source().rest().skip(1));
            assert(extractor.nodes() =~= kind_pattern(message_kind));
            lemma_pattern_matches_frame(message_kind, self.source().rest());
        }

        let data_result = extractor.extract(self.read_source);

        match data_result {
            Ok(data) => Ok((message_kind, data)),
            Err(_) => Err(()),
        }
    }

    fn read_type_byte(&mut self) -> (r: Result<u8, ()>)
        requires
            old(self).source().wf(),
        ensures
            final(self).source().wf(),
            final(self).source().buf() == old(self).source().buf(),
            if old(self).source().rest().len() >= 1 {
                &&& r matches Ok(b) && b == old(self).source().rest()[0]
                &&& final(self).source().position() == old(self).source().position() + 1
            } else {
                &&& r is Err
                &&& final(self).source().position() == old(self).source().position()
            },
    {
        self.read_source.read_byte()
    }
}

} // verus!
