//! Pattern-driven frame extraction: each message kind's payload is a short
//! pattern of chunks (fixed runs of bytes, fixed strings, length-prefixed
//! strings), pulled off a byte stream as raw bytes.

use vstd::prelude::*;

use crate::protocol::primitive_parse::parse_u16l;
use crate::protocol::stream::ByteStream;
use crate::protocol::wire::u16_of;

verus! {

pub const LURK_FIXED_STRING_SIZE: u16 = 32;

/// One chunk of a payload pattern.
#[derive(Clone, Copy)]
pub enum ExtractNode {
    /// A fixed run of bytes.
    ByteChunk(u16),
    /// A fixed 32-byte string field.
    FixedStringChunk,
    /// A u16 length descriptor followed by that many bytes.
    VarStringChunk,
    /// A u16 length descriptor, a fixed gap of bytes, then the announced
    /// bytes: the `Message` layout, whose body length precedes the names.
    FracturedVarString(u16),
}

/// How many bytes a chunk takes from the front of `input`, or nothing when
/// the input is too short.
pub open spec fn node_len(node: ExtractNode, input: Seq<u8>) -> Option<int> {
    match node {
        ExtractNode::ByteChunk(n) => if n <= input.len() {
            Some(n as int)
        } else {
            None
        },
        ExtractNode::FixedStringChunk => if 32 <= input.len() {
            Some(32int)
        } else {
            None
        },
        ExtractNode::VarStringChunk => if 2 <= input.len() && 2 + u16_of(input[0], input[1])
            <= input.len() {
            Some(2 + u16_of(input[0], input[1]) as int)
        } else {
            None
        },
        ExtractNode::FracturedVarString(gap) => if gap + 2 <= input.len() && gap + 2 + u16_of(
            input[0],
            input[1],
        ) <= input.len() {
            Some(gap + 2 + u16_of(input[0], input[1]) as int)
        } else {
            None
        },
    }
}

/// How many bytes a whole pattern takes from the front of `input`, or
/// nothing when some chunk runs past the end.
pub open spec fn extract_len(nodes: Seq<ExtractNode>, input: Seq<u8>) -> Option<int>
    decreases nodes.len(),
{
    if nodes.len() == 0 {
        Some(0int)
    } else {
        match node_len(nodes[0], input) {
            Some(k) => match extract_len(nodes.drop_first(), input.skip(k)) {
                Some(restlen) => Some(k + restlen),
                None => None,
            },
            None => None,
        }
    }
}

/// A payload pattern: the chunks of one message kind, in field order.
pub struct Extractor {
    pattern_nodes: Vec<ExtractNode>,
}

impl Extractor {
    /// The chunks of this pattern.
    pub closed spec fn nodes(&self) -> Seq<ExtractNode> {
        self.pattern_nodes@
    }

    pub fn create(nodes: Vec<ExtractNode>) -> (r: Extractor)
        ensures
            r.nodes() == nodes@,
    {
        Extractor { pattern_nodes: nodes }
    }

    pub fn message() -> (r: Extractor)
        ensures
            r.nodes() =~= seq![ExtractNode::FracturedVarString((2 * LURK_FIXED_STRING_SIZE) as u16)],
    {
        Extractor::create(vec![ExtractNode::FracturedVarString(2 * LURK_FIXED_STRING_SIZE)])
    }

    pub fn change_room() -> (r: Extractor)
        ensures
            r.nodes() =~= seq![ExtractNode::ByteChunk(2)],
    {
        Extractor::create(vec![ExtractNode::ByteChunk(2)])
    }

    pub fn fight() -> (r: Extractor)
        ensures
            r.nodes() =~= Seq::<ExtractNode>::empty(),
    {
        Extractor::create(vec![])
    }

    pub fn pvp_fight() -> (r: Extractor)
        ensures
            r.nodes() =~= seq![ExtractNode::FixedStringChunk],
    {
        Extractor::create(vec![ExtractNode::FixedStringChunk])
    }

    pub fn loot() -> (r: Extractor)
        ensures
            r.nodes() =~= seq![ExtractNode::FixedStringChunk],
    {
        Extractor::create(vec![ExtractNode::FixedStringChunk])
    }

    pub fn start() -> (r: Extractor)
        ensures
            r.nodes() =~= Seq::<ExtractNode>::empty(),
    {
        Extractor::create(vec![])
    }

    pub fn error() -> (r: Extractor)
        ensures
            r.nodes() =~= seq![ExtractNode::ByteChunk(1), ExtractNode::VarStringChunk],
    {
        Extractor::create(vec![ExtractNode::ByteChunk(1), ExtractNode::VarStringChunk])
    }

    pub fn accept() -> (r: Extractor)
        ensures
            r.nodes() =~= seq![ExtractNode::ByteChunk(1)],
    {
        Extractor::create(vec![ExtractNode::ByteChunk(1)])
    }

    pub fn room() -> (r: Extractor)
        ensures
            r.nodes() =~= seq![
                ExtractNode::ByteChunk(2),
                ExtractNode::FixedStringChunk,
                ExtractNode::VarStringChunk,
            ],
    {
        Extractor::create(
            vec![
                ExtractNode::ByteChunk(2),
                ExtractNode::FixedStringChunk,
                ExtractNode::VarStringChunk,
            ],
        )
    }

    pub fn character() -> (r: Extractor)
        ensures
            r.nodes() =~= seq![
                ExtractNode::FixedStringChunk,
                ExtractNode::ByteChunk(13),
                ExtractNode::VarStringChunk,
            ],
    {
        Extractor::create(
            vec![
                ExtractNode::FixedStringChunk,
                ExtractNode::ByteChunk(13),
                ExtractNode::VarStringChunk,
            ],
        )
    }

    pub fn game() -> (r: Extractor)
        ensures
            r.nodes() =~= seq![ExtractNode::ByteChunk(4), ExtractNode::VarStringChunk],
    {
        Extractor::create(vec![ExtractNode::ByteChunk(4), ExtractNode::VarStringChunk])
    }

    pub fn leave() -> (r: Extractor)
        ensures
            r.nodes() =~= Seq::<ExtractNode>::empty(),
    {
        Extractor::create(vec![])
    }

    pub fn connection() -> (r: Extractor)
        ensures
            r.nodes() =~= seq![
                ExtractNode::ByteChunk(2),
                ExtractNode::FixedStringChunk,
                ExtractNode::VarStringChunk,
            ],
    {
        Extractor::create(
            vec![
                ExtractNode::ByteChunk(2),
                ExtractNode::FixedStringChunk,
                ExtractNode::VarStringChunk,
            ],
        )
    }

    /// Pulls the pattern's chunks off the stream in order and returns the
    /// consumed bytes whole; fails when the stream runs dry mid-pattern.
    pub fn extract(&self, stream: &mut ByteStream) -> (r: Result<Vec<u8>, ()>)
        requires
            old(stream).wf(),
        ensures
            final(stream).wf(),
            final(stream).buf() == old(stream).buf(),
            final(stream).position() >= old(stream).position(),
            match extract_len(self.nodes(), old(stream).rest()) {
                Some(k) => {
                    &&& r matches Ok(v) && v@ == old(stream).rest().take(k)
                    &&& final(stream).position() == old(stream).position() + k
                },
                None => r is Err,
            },
    {
        let mut result: Vec<u8> = vec![];

        proof {
            old(stream).wf_bounds();
            assert(self.nodes().skip(0) =~= self.nodes());
            assert(old(stream).rest().take(0) =~= Seq::<u8>::empty());
        }
        let n = self.pattern_nodes.len();
        let mut idx: usize = 0;
        while idx < n
            invariant
                old(stream).wf(),
                stream.wf(),
                stream.buf() == old(stream).buf(),
                n == self.nodes().len(),
                idx <= n,
                0 <= old(stream).position() <= stream.position() <= stream.buf().len(),
                result@ == old(stream).rest().take(stream.position() - old(stream).position()),
                match extract_len(self.nodes().skip(idx as int), stream.rest()) {
                    Some(k) => extract_len(self.nodes(), old(stream).rest()) == Some(
                        k + stream.position() - old(stream).position(),
                    ),
                    None => extract_len(self.nodes(), old(stream).rest()) is None,
                },
            decreases n - idx,
        {
            let ghost prev = *stream;
            let ghost consumed_before = stream.position() - old(stream).position();
            let node = self.pattern_nodes[idx];
            proof {
                assert(self.nodes().skip(idx as int)[0] == self.nodes()[idx as int]);
            }
            let data: Vec<u8> = match node {
                ExtractNode::ByteChunk(size) => {
                    let d = self.extract_byte_chunk(stream, size);
                    match d {
                        Ok(v) => v,
                        Err(_) => {
                            return Err(());
                        },
                    }
                },
                ExtractNode::FixedStringChunk => {
                    let d = self.extract_fixed_string_chunk(stream);
                    match d {
                        Ok(v) => v,
                        Err(_) => {
                            return Err(());
                        },
                    }
                },
                ExtractNode::VarStringChunk => {
                    let d = self.extract_var_string_chunk(stream);
                    match d {
                        Ok(v) => v,
                        Err(_) => {
                            return Err(());
                        },
                    }
                },
                ExtractNode::FracturedVarString(gap_size) => {
                    let d = self.extract_fractured_var_string_chunk(stream, gap_size);
                    match d {
                        Ok(v) => v,
                        Err(_) => {
                            return Err(());
                        },
                    }
                },
            };

            result.extend_from_slice(data.as_slice());

            proof {
                stream.wf_bounds();
                let k = stream.position() - prev.position();
                assert(node_len(self.nodes()[idx as int], prev.rest()) == Some(k));
                assert(self.nodes().skip(idx as int).drop_first() =~= self.nodes().skip(
                    idx as int + 1,
                ));
                assert(prev.rest() =~= old(stream).rest().skip(consumed_before));
                assert(prev.rest().skip(k) =~= stream.rest());
                assert(data@ == prev.rest().take(k));
                crate::protocol::wire::lemma_take_skip_concat(
                    old(stream).rest(),
                    consumed_before,
                    k,
                );
                assert(result@ =~= old(stream).rest().take(consumed_before + k));
            }
            idx += 1;
        }

        proof {
            assert(self.nodes().skip(n as int) =~= Seq::<ExtractNode>::empty());
            assert(result@ =~= old(stream).rest().take(
                stream.position() - old(stream).position(),
            ));
        }
        Ok(result)
    }

    /// Reads a fixed run of `n` bytes.
    pub fn extract_byte_chunk(&self, stream: &mut ByteStream, n: u16) -> (r: Result<Vec<u8>, ()>)
        requires
            old(stream).wf(),
        ensures
            final(stream).wf(),
            final(stream).buf() == old(stream).buf(),
            final(stream).position() >= old(stream).position(),
            match node_len(ExtractNode::ByteChunk(n), old(stream).rest()) {
                Some(k) => {
                    &&& r matches Ok(v) && v@ == old(stream).rest().take(k)
                    &&& final(stream).position() == old(stream).position() + k
                },
                None => {
                    &&& r is Err
                    &&& final(stream).position() == old(stream).position()
                },
            },
    {
        stream.read_exact(n as usize)
    }

    /// Reads one fixed 32-byte string field.
    pub fn extract_fixed_string_chunk(&self, stream: &mut ByteStream) -> (r: Result<Vec<u8>, ()>)
        requires
            old(stream).wf(),
        ensures
            final(stream).wf(),
            final(stream).buf() == old(stream).buf(),
            final(stream).position() >= old(stream).position(),
            match node_len(ExtractNode::FixedStringChunk, old(stream).rest()) {
                Some(k) => {
                    &&& r matches Ok(v) && v@ == old(stream).rest().take(k)
                    &&& final(stream).position() == old(stream).position() + k
                },
                None => {
                    &&& r is Err
                    &&& final(stream).position() == old(stream).position()
                },
            },
    {
        stream.read_exact(LURK_FIXED_STRING_SIZE as usize)
    }

    /// Reads a u16 length descriptor and then the announced bytes; the
    /// returned chunk keeps the descriptor.
    pub fn extract_var_string_chunk(&self, stream: &mut ByteStream) -> (r: Result<Vec<u8>, ()>)
        requires
            old(stream).wf(),
        ensures
            final(stream).wf(),
            final(stream).buf() == old(stream).buf(),
            final(stream).position() >= old(stream).position(),
            match node_len(ExtractNode::VarStringChunk, old(stream).rest()) {
                Some(k) => {
                    &&& r matches Ok(v) && v@ == old(stream).rest().take(k)
                    &&& final(stream).position() == old(stream).position() + k
                },
                None => r is Err,
            },
    {
        let mut buffer = match stream.read_exact(2) {
            Ok(v) => v,
            Err(_) => {
                return Err(());
            },
        };
        let len = parse_u16l(buffer.as_slice());
        proof {
            old(stream).wf_bounds();
            let rest = old(stream).rest();
            assert(buffer@[0] == rest[0] && buffer@[1] == rest[1]);
            assert(stream.rest() =~= rest.skip(2));
        }
        let data_buffer = match stream.read_exact(len as usize) {
            Ok(v) => v,
            Err(_) => {
                return Err(());
            },
        };
        buffer.extend_from_slice(data_buffer.as_slice());
        proof {
            let rest = old(stream).rest();
            crate::protocol::wire::lemma_take_skip_concat(rest, 2, len as int);
            assert(buffer@ =~= rest.take(2 + u16_of(rest[0], rest[1]) as int));
        }
        Ok(buffer)
    }

    /// Reads a u16 length descriptor, a fixed gap of `n` bytes, then the
    /// announced bytes; the returned chunk keeps descriptor and gap.
    pub fn extract_fractured_var_string_chunk(&self, stream: &mut ByteStream, n: u16) -> (r: Result<
        Vec<u8>,
        (),
    >)
        requires
            old(stream).wf(),
        ensures
            final(stream).wf(),
            final(stream).buf() == old(stream).buf(),
            final(stream).position() >= old(stream).position(),
            match node_len(ExtractNode::FracturedVarString(n), old(stream).rest()) {
                Some(k) => {
                    &&& r matches Ok(v) && v@ == old(stream).rest().take(k)
                    &&& final(stream).position() == old(stream).position() + k
                },
                None => r is Err,
            },
    {
        let mut buffer = match stream.read_exact(n as usize + 2) {
            Ok(v) => v,
            Err(_) => {
                return Err(());
            },
        };
        let len = parse_u16l(buffer.as_slice());
        proof {
            old(stream).wf_bounds();
            let rest = old(stream).rest();
            assert(buffer@[0] == rest[0] && buffer@[1] == rest[1]);
            assert(stream.rest() =~= rest.skip(n as int + 2));
        }
        let data_buffer = match stream.read_exact(len as usize) {
            Ok(v) => v,
            Err(_) => {
                return Err(());
            },
        };
        buffer.extend_from_slice(data_buffer.as_slice());
        proof {
            let rest = old(stream).rest();
            crate::protocol::wire::lemma_take_skip_concat(rest, n as int + 2, len as int);
            assert(buffer@ =~= rest.take(n + 2 + u16_of(rest[0], rest[1]) as int));
        }
        Ok(buffer)
    }
}

} // verus!
