//! Mathematical model of the on-wire byte layouts: little-endian 16-bit
//! integers, fixed-length NUL-padded strings, and u16-length-prefixed
//! variable strings.

use vstd::prelude::*;

verus! {

/// Little-endian bytes of an unsigned 16-bit value, least significant first.
pub open spec fn u16_le(v: u16) -> Seq<u8> {
    seq![(v & 0xff) as u8, ((v >> 8) & 0xff) as u8]
}

/// The unsigned 16-bit value read from two little-endian bytes.
pub open spec fn u16_of(b0: u8, b1: u8) -> u16 {
    ((b0 as u16) | ((b1 as u16) << 8)) as u16
}

/// Little-endian bytes of a signed 16-bit value: the bytes of its
/// two's-complement bit pattern.
pub open spec fn i16_le(v: i16) -> Seq<u8> {
    u16_le(v as u16)
}

/// The signed 16-bit value whose two's-complement bit pattern is read from
/// two little-endian bytes.
pub open spec fn i16_of(b0: u8, b1: u8) -> i16 {
    u16_of(b0, b1) as i16
}

/// A byte field of capacity `n`: the input truncated to `n` bytes, then
/// padded with NUL bytes up to exactly `n`.
pub open spec fn fixed_bytes(b: Seq<u8>, n: nat) -> Seq<u8> {
    Seq::new(n, |i: int| if i < b.len() { b[i] } else { 0u8 })
}

/// Index of the first NUL byte, or the length when none occurs.
pub open spec fn nul_pos(b: Seq<u8>) -> int
    decreases b.len(),
{
    if b.len() == 0 {
        0
    } else if b[0] == 0 {
        0
    } else {
        1 + nul_pos(b.drop_first())
    }
}

/// Whether a byte sequence holds no NUL byte.
pub open spec fn nul_free(b: Seq<u8>) -> bool {
    forall|i: int| 0 <= i < b.len() ==> b[i] != 0
}

/// The prefix of a byte field up to (excluding) its first NUL byte.
pub open spec fn trunc_nul(b: Seq<u8>) -> Seq<u8> {
    b.take(nul_pos(b))
}

/// A u16-length-prefixed variable byte field. Meaningful when the payload
/// holds at most 0xFFFF bytes.
pub open spec fn var_bytes(b: Seq<u8>) -> Seq<u8> {
    u16_le(b.len() as u16) + b
}

/// Reading two little-endian bytes gives back the emitted value.
pub broadcast proof fn lemma_u16_le_of(v: u16)
    ensures
        #![trigger u16_le(v)]
        u16_of(u16_le(v)[0], u16_le(v)[1]) == v,
{
    assert(((((v & 0xff) as u8) as u16) | (((((v >> 8) & 0xff) as u8) as u16) << 8)) as u16 == v)
        by (bit_vector);
}

/// The signed reading of the bytes of a signed value gives back the value.
pub broadcast proof fn lemma_i16_le_of(v: i16)
    ensures
        #![trigger i16_le(v)]
        i16_of(i16_le(v)[0], i16_le(v)[1]) == v,
{
    lemma_u16_le_of(v as u16);
    assert((v as u16) as i16 == v) by (bit_vector);
    assert(i16_of(i16_le(v)[0], i16_le(v)[1]) == v);
}

/// Adjacent take/skip pieces of a sequence concatenate to a longer prefix.
pub proof fn lemma_take_skip_concat(a: Seq<u8>, i: int, j: int)
    requires
        0 <= i,
        0 <= j,
        i + j <= a.len(),
    ensures
        a.take(i) + a.skip(i).take(j) == a.take(i + j),
{
    assert(a.take(i) + a.skip(i).take(j) =~= a.take(i + j));
}

/// Bounds of the first-NUL index.
pub proof fn lemma_nul_pos(b: Seq<u8>)
    ensures
        0 <= nul_pos(b) <= b.len(),
        forall|i: int| 0 <= i < nul_pos(b) ==> b[i] != 0,
        nul_pos(b) < b.len() ==> b[nul_pos(b)] == 0,
    decreases b.len(),
{
    if b.len() == 0 {
    } else if b[0] == 0 {
    } else {
        lemma_nul_pos(b.drop_first());
        assert forall|i: int| 0 <= i < nul_pos(b) implies b[i] != 0 by {
            if i > 0 {
                assert(b.drop_first()[i - 1] != 0);
            }
        }
    }
}

/// The first-NUL index is the unique position bounded by the length whose
/// earlier bytes are all non-NUL and which, if interior, holds a NUL.
pub proof fn lemma_nul_pos_unique(b: Seq<u8>, p: int)
    requires
        0 <= p <= b.len(),
        forall|i: int| 0 <= i < p ==> b[i] != 0,
        p < b.len() ==> b[p] == 0,
    ensures
        nul_pos(b) == p,
{
    lemma_nul_pos(b);
    if nul_pos(b) < p {
        assert(b[nul_pos(b)] == 0);
        assert(b[nul_pos(b)] != 0);
    }
    if nul_pos(b) > p {
        assert(b[p] != 0);
    }
}

/// A NUL-free sequence is left whole by NUL truncation.
pub proof fn lemma_trunc_nul_clean(b: Seq<u8>)
    requires
        nul_free(b),
    ensures
        trunc_nul(b) == b,
    decreases b.len(),
{
    if b.len() == 0 {
        assert(trunc_nul(b) =~= b);
    } else {
        lemma_trunc_nul_clean(b.drop_first());
        assert(forall|i: int|
            0 <= i < b.drop_first().len() ==> #[trigger] b.drop_first()[i] != 0);
        lemma_nul_pos(b.drop_first());
        assert(nul_pos(b.drop_first()) == b.drop_first().len());
        assert(trunc_nul(b) =~= b);
    }
}

/// Truncation at the first NUL of a NUL-padded fixed field of a NUL-free
/// value gives the value back.
pub proof fn lemma_trunc_nul_fixed(b: Seq<u8>, n: nat)
    requires
        b.len() <= n,
        nul_free(b),
    ensures
        trunc_nul(fixed_bytes(b, n)) == b,
{
    let f = fixed_bytes(b, n);
    lemma_nul_pos(f);
    if b.len() < n {
        assert(f[b.len() as int] == 0);
        assert(nul_pos(f) <= b.len()) by {
            if nul_pos(f) > b.len() {
                assert(f[b.len() as int] != 0);
            }
        }
    }
    assert(nul_pos(f) >= b.len()) by {
        if nul_pos(f) < b.len() {
            assert(f[nul_pos(f)] == 0);
            assert(b[nul_pos(f)] != 0);
        }
    }
    assert(trunc_nul(f) =~= b);
}

} // verus!
