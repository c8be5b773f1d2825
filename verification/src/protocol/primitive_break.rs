//! Primitive encoders: little-endian 16-bit integers, u16-length-prefixed
//! variable strings, and fixed-capacity NUL-padded strings, together with an
//! append-only output buffer that chains them.

use vstd::prelude::*;

use crate::protocol::wire::{fixed_bytes, i16_le, u16_le, var_bytes};

verus! {

use vstd::string::StringSliceAdditionalSpecFns;

/// An append-only byte buffer that encoded fields are written into.
pub struct OutputBuffer {
    pub data: Vec<u8>,
}

impl OutputBuffer {
    pub fn new() -> (r: OutputBuffer)
        ensures
            r.data@ == Seq::<u8>::empty(),
    {
        OutputBuffer { data: vec![] }
    }

    pub fn write_byte(&mut self, val: u8) -> (ret: &mut Self)
        ensures
            (*ret).data@ == old(self).data@.push(val),
            *final(self) == *final(ret),
    {
        self.data.push(val);
        self
    }

    pub fn write_u16l(&mut self, val: u16) -> (ret: &mut Self)
        ensures
            (*ret).data@ == old(self).data@ + u16_le(val),
            *final(self) == *final(ret),
    {
        let extension = break_u16l(val);
        self.data.push(extension[0]);
        self.data.push(extension[1]);
        proof {
            assert(self.data@ =~= old(self).data@ + u16_le(val));
        }
        self
    }

    pub fn write_i16l(&mut self, val: i16) -> (ret: &mut Self)
        ensures
            (*ret).data@ == old(self).data@ + i16_le(val),
            *final(self) == *final(ret),
    {
        let extension = break_i16l(val);
        self.data.push(extension[0]);
        self.data.push(extension[1]);
        proof {
            assert(self.data@ =~= old(self).data@ + i16_le(val));
        }
        self
    }

    pub fn write_string(&mut self, text: &str) -> (ret: &mut Self)
        requires
            text.spec_bytes().len() <= 0xFFFF,
        ensures
            (*ret).data@ == old(self).data@ + var_bytes(text.spec_bytes()),
            *final(self) == *final(ret),
    {
        let extension = break_string(text);
        self.data.append(&mut extension.clone());
        self
    }

    pub fn write_string_fixed(&mut self, text: &str, max_len: u16) -> (ret: &mut Self)
        ensures
            (*ret).data@ == old(self).data@ + fixed_bytes(text.spec_bytes(), max_len as nat),
            *final(self) == *final(ret),
    {
        let extension = break_string_fixed(text, max_len);
        self.data.append(&mut extension.clone());
        self
    }
}

/// The two little-endian bytes of an unsigned 16-bit value.
pub fn break_u16l(val: u16) -> (r: [u8; 2])
    ensures
        r@ == u16_le(val),
{
    let r = [(val & 0xFF) as u8, ((val >> 8) & 0xFF) as u8];
    proof {
        assert(r@ =~= u16_le(val));
    }
    r
}

/// The two little-endian bytes of a signed 16-bit value's bit pattern.
pub fn break_i16l(val: i16) -> (r: [u8; 2])
    ensures
        r@ == i16_le(val),
{
    let u = #[verifier::truncate] (val as u16);
    break_u16l(u)
}

/// A u16 length descriptor followed by the string's bytes.
pub fn break_string(text: &str) -> (r: Vec<u8>)
    requires
        text.spec_bytes().len() <= 0xFFFF,
    ensures
        r@ == var_bytes(text.spec_bytes()),
{
    let data = text.as_bytes();
    let len_descriptor = break_u16l(data.len() as u16);

    let mut result: Vec<u8> = Vec::new();
    result.push(len_descriptor[0]);
    result.push(len_descriptor[1]);
    result.extend_from_slice(data);
    proof {
        assert(result@ =~= var_bytes(text.spec_bytes()));
    }
    result
}

/// Exactly `max_len` bytes: the string truncated to the capacity, NUL-padded.
pub fn break_string_fixed(text: &str, max_len: u16) -> (r: Vec<u8>)
    ensures
        r@ == fixed_bytes(text.spec_bytes(), max_len as nat),
{
    let data = text.as_bytes();

    let len: u16 = if data.len() > max_len as usize {
        max_len
    } else {
        data.len() as u16
    };

    let mut result: Vec<u8> = Vec::new();
    let mut i: u16 = 0;
    while i < max_len
        invariant
            i <= max_len,
            len as int == if data@.len() > max_len as int { max_len as int } else { data@.len() as int },
            data@ == text.spec_bytes(),
            result@ =~= fixed_bytes(text.spec_bytes(), max_len as nat).take(i as int),
        decreases max_len - i,
    {
        if i < len {
            result.push(data[i as usize]);
        } else {
            result.push(0);
        }
        proof {
            assert(result@ =~= fixed_bytes(text.spec_bytes(), max_len as nat).take(i + 1));
        }
        i = i + 1;
    }
    proof {
        assert(result@ =~= fixed_bytes(text.spec_bytes(), max_len as nat));
    }
    result
}

} // verus!
