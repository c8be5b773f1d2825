//! Primitive decoders over a borrowed byte buffer: little-endian 16-bit
//! integers, fixed-capacity NUL-terminated strings, and u16-length-prefixed
//! variable strings. No decoder commits a partial result on failure.

use vstd::prelude::*;

use crate::protocol::text::bytes_to_string;
use crate::protocol::wire::{i16_of, lemma_nul_pos, nul_pos, trunc_nul, u16_of};

verus! {

use vstd::utf8::{decode_utf8, valid_utf8};

/// A read cursor over a borrowed byte buffer.
pub struct ReadBufferCursor<'a> {
    index: usize,
    bytes: &'a [u8],
}

/// Whether a u16-length-prefixed string can be read from the front of `b`:
/// the descriptor and the announced bytes are present and are valid UTF-8.
pub open spec fn var_string_at(b: Seq<u8>) -> bool {
    &&& b.len() >= 2
    &&& u16_of(b[0], b[1]) + 2 <= b.len()
    &&& valid_utf8(b.subrange(2, 2 + u16_of(b[0], b[1]) as int))
}

/// The characters of the u16-length-prefixed string at the front of `b`.
pub open spec fn var_string_chars(b: Seq<u8>) -> Seq<char> {
    decode_utf8(b.subrange(2, 2 + u16_of(b[0], b[1]) as int))
}

/// Whether a fixed-capacity string of `n` bytes can be read from the front
/// of `b`: the bytes are present and, truncated at the first NUL, are valid
/// UTF-8.
pub open spec fn fixed_string_at(b: Seq<u8>, n: int) -> bool {
    &&& b.len() >= n >= 0
    &&& valid_utf8(trunc_nul(b.take(n)))
}

/// The characters of the fixed-capacity string of `n` bytes at the front of
/// `b`, truncated at its first NUL byte.
pub open spec fn fixed_string_chars(b: Seq<u8>, n: int) -> Seq<char> {
    decode_utf8(trunc_nul(b.take(n)))
}

impl<'a> ReadBufferCursor<'a> {
    /// The whole underlying buffer.
    pub closed spec fn buf(&self) -> Seq<u8> {
        self.bytes@
    }

    /// The current read position.
    pub closed spec fn pos(&self) -> int {
        self.index as int
    }

    /// The cursor never points past the end of the buffer.
    pub closed spec fn wf(&self) -> bool {
        self.index <= self.bytes@.len()
    }

    /// The bytes not yet consumed.
    pub open spec fn rest(&self) -> Seq<u8> {
        self.buf().skip(self.pos())
    }

    pub fn new(buffer: &'a [u8]) -> (r: ReadBufferCursor<'a>)
        ensures
            r.wf(),
            r.buf() == buffer@,
            r.pos() == 0,
    {
        ReadBufferCursor { index: 0, bytes: buffer }
    }

    /// Parses an unsigned 16 bit integer from the buffer assuming little
    /// endianness; fails without consuming when fewer than two bytes remain.
    pub fn parse_u16l(&mut self) -> (r: Result<u16, String>)
        requires
            old(self).wf(),
        ensures
            final(self).wf(),
            final(self).buf() == old(self).buf(),
            if old(self).rest().len() >= 2 {
                &&& r matches Ok(v) && v == u16_of(old(self).rest()[0], old(self).rest()[1])
                &&& final(self).pos() == old(self).pos() + 2
            } else {
                &&& r is Err
                &&& final(self).pos() == old(self).pos()
            },
    {
        let n = self.bytes.len();
        if n - self.index < 2 {
            return Err("Not enough bytes remaining to parse u16.".to_owned());
        }

        let result = parse_u16l(&self.bytes[self.index..(self.index + 2)]);
        self.index += 2;
        Ok(result)
    }

    /// Parses a signed 16 bit integer from the buffer assuming little
    /// endianness; fails without consuming when fewer than two bytes remain.
    pub fn parse_i16l(&mut self) -> (r: Result<i16, String>)
        requires
            old(self).wf(),
        ensures
            final(self).wf(),
            final(self).buf() == old(self).buf(),
            if old(self).rest().len() >= 2 {
                &&& r matches Ok(v) && v == i16_of(old(self).rest()[0], old(self).rest()[1])
                &&& final(self).pos() == old(self).pos() + 2
            } else {
                &&& r is Err
                &&& final(self).pos() == old(self).pos()
            },
    {
        let n = self.bytes.len();
        if n - self.index < 2 {
            return Err("Not enough bytes remaining to parse i16.".to_owned());
        }

        let result = parse_i16l(&self.bytes[self.index..(self.index + 2)]);
        self.index += 2;
        Ok(result)
    }

    /// Parses a variable sized string from the buffer by reading a u16 length
    /// descriptor (little endian) then the string itself.
    pub fn parse_var_string(&mut self) -> (r: Result<String, String>)
        requires
            old(self).wf(),
        ensures
            final(self).wf(),
            final(self).buf() == old(self).buf(),
            if var_string_at(old(self).rest()) {
                &&& r matches Ok(s) && s@ == var_string_chars(old(self).rest())
                &&& final(self).pos() == old(self).pos() + 2 + u16_of(
                    old(self).rest()[0],
                    old(self).rest()[1],
                )
            } else {
                &&& r is Err
                &&& final(self).pos() == old(self).pos()
            },
    {
        let n = self.bytes.len();
        match parse_var_string(&self.bytes[self.index..n]) {
            Ok(t) => {
                let size = t.as_str().as_bytes().len();
                proof {
                    let rest = old(self).rest();
                    vstd::utf8::decode_utf8_encode_utf8(
                        rest.subrange(2, 2 + u16_of(rest[0], rest[1]) as int),
                    );
                }
                self.index += size + 2;
                Ok(t)
            }
            Err(e) => Err(e),
        }
    }

    /// Parses a fixed size string up to its capacity or NUL terminator;
    /// fails without consuming when fewer than `capacity` bytes remain or
    /// the truncated bytes are not valid UTF-8.
    pub fn parse_string(&mut self, capacity: u16) -> (r: Result<String, String>)
        requires
            old(self).wf(),
        ensures
            final(self).wf(),
            final(self).buf() == old(self).buf(),
            if fixed_string_at(old(self).rest(), capacity as int) {
                &&& r matches Ok(s) && s@ == fixed_string_chars(old(self).rest(), capacity as int)
                &&& final(self).pos() == old(self).pos() + capacity
            } else {
                &&& r is Err
                &&& final(self).pos() == old(self).pos()
            },
    {
        let n = self.bytes.len();
        if n - self.index < capacity as usize {
            return Err("Failed to parse string.".to_owned());
        }

        let chunk = &self.bytes[self.index..(self.index + capacity as usize)];
        proof {
            assert(chunk@ =~= old(self).rest().take(capacity as int));
            assert(chunk@.take(capacity as int) =~= chunk@);
        }
        let result = parse_string(chunk, capacity);
        match result {
            Ok(t) => {
                self.index += capacity as usize;
                Ok(t)
            }
            Err(_) => Err("Failed to parse string.".to_owned()),
        }
    }

    /// Get number of bytes remaining after cursor position.
    pub fn bytes_remaining(&self) -> (r: usize)
        requires
            self.wf(),
        ensures
            r == self.rest().len(),
    {
        self.bytes.len() - self.index
    }

    /// Get the next single byte.
    pub fn get_byte(&mut self) -> (r: Result<u8, String>)
        requires
            old(self).wf(),
        ensures
            final(self).wf(),
            final(self).buf() == old(self).buf(),
            if old(self).rest().len() >= 1 {
                &&& r matches Ok(b) && b == old(self).rest()[0]
                &&& final(self).pos() == old(self).pos() + 1
            } else {
                &&& r is Err
                &&& final(self).pos() == old(self).pos()
            },
    {
        if self.bytes.len() - self.index == 0 {
            return Err("No byte remaining.".to_owned());
        }

        self.index += 1;

        Ok(self.bytes[self.index - 1])
    }
}

/// Reads an unsigned little-endian 16-bit value from the first two bytes.
pub fn parse_u16l(bytes: &[u8]) -> (r: u16)
    requires
        bytes@.len() >= 2,
    ensures
        r == u16_of(bytes@[0], bytes@[1]),
{
    let r = bytes[0] as u16 | ((bytes[1] as u16) << 8);
    r
}

/// Reads a signed little-endian 16-bit value from the first two bytes.
pub fn parse_i16l(bytes: &[u8]) -> (r: i16)
    requires
        bytes@.len() >= 2,
    ensures
        r == i16_of(bytes@[0], bytes@[1]),
{
    let val = parse_u16l(bytes);
    #[verifier::truncate] (val as i16)
}

/// Reads a u16-length-prefixed UTF-8 string from the front of the buffer.
pub fn parse_var_string(bytes: &[u8]) -> (r: Result<String, String>)
    ensures
        if var_string_at(bytes@) {
            r matches Ok(s) && s@ == var_string_chars(bytes@)
        } else {
            r is Err
        },
{
    if bytes.len() < 2 {
        return Err("Not enough bytes to read a string.".to_owned());
    }

    let size = parse_u16l(bytes) as usize;

    if size > bytes.len() - 2 {
        return Err("Length descriptor asks for more bytes than present.".to_owned());
    }

    match bytes_to_string(&bytes[2..(2 + size)]) {
        Some(t) => Ok(t),
        None => Err("Failed to parse utf8 data.".to_owned()),
    }
}

/// Index of the first NUL byte, or the length when none occurs.
fn find_nul(bytes: &[u8]) -> (r: usize)
    ensures
        r == nul_pos(bytes@),
{
    let n = bytes.len();
    let mut i: usize = 0;
    while i < n
        invariant
            i <= n == bytes@.len(),
            forall|j: int| 0 <= j < i ==> bytes@[j] != 0,
        decreases n - i,
    {
        if bytes[i] == 0 {
            proof {
                lemma_nul_pos(bytes@);
                if nul_pos(bytes@) < i as int {
                    assert(bytes@[nul_pos(bytes@)] != 0);
                }
                if nul_pos(bytes@) > i as int {
                    assert(bytes@[i as int] != 0);
                }
            }
            return i;
        }
        i += 1;
    }
    proof {
        lemma_nul_pos(bytes@);
        if nul_pos(bytes@) < n as int {
            assert(bytes@[nul_pos(bytes@)] != 0);
        }
    }
    n
}

/// Reads a fixed-capacity string: `capacity` bytes, truncated at the first
/// NUL byte, validated as UTF-8.
pub fn parse_string(bytes: &[u8], capacity: u16) -> (r: Result<String, String>)
    requires
        bytes@.len() >= capacity,
    ensures
        if fixed_string_at(bytes@, capacity as int) {
            r matches Ok(s) && s@ == fixed_string_chars(bytes@, capacity as int)
        } else {
            r is Err
        },
{
    let chunk = &bytes[0..capacity as usize];
    let index = find_nul(chunk);
    proof {
        lemma_nul_pos(chunk@);
        assert(chunk@ == bytes@.take(capacity as int));
    }

    match bytes_to_string(&chunk[0..index]) {
        Some(t) => Ok(t),
        None => Err("Failed to parse utf8 data.".to_owned()),
    }
}

} // verus!
