//! An in-memory byte stream: the buffered bytes a connection has produced,
//! consumed front to back. The host feeds it from its transport and the
//! extraction routines read whole fields from it.

use vstd::prelude::*;

verus! {

/// A byte source with a read position; reads consume from the front.
pub struct ByteStream {
    data: Vec<u8>,
    cursor: usize,
}

impl ByteStream {
    /// The whole underlying buffer.
    pub closed spec fn buf(&self) -> Seq<u8> {
        self.data@
    }

    /// How many bytes have been consumed.
    pub closed spec fn position(&self) -> int {
        self.cursor as int
    }

    /// The position never passes the end of the buffer.
    pub closed spec fn wf(&self) -> bool {
        self.cursor <= self.data@.len()
    }

    /// The bytes not yet consumed.
    pub open spec fn rest(&self) -> Seq<u8> {
        self.buf().skip(self.position())
    }

    /// A well-formed stream's position lies within its buffer.
    pub proof fn wf_bounds(&self)
        requires
            self.wf(),
        ensures
            0 <= self.position() <= self.buf().len(),
    {
    }

    pub fn new(data: Vec<u8>) -> (r: ByteStream)
        ensures
            r.wf(),
            r.buf() == data@,
            r.position() == 0,
    {
        ByteStream { data, cursor: 0 }
    }

    /// How many bytes remain to be read.
    pub fn remaining(&self) -> (r: usize)
        requires
            self.wf(),
        ensures
            r == self.rest().len(),
    {
        self.data.len() - self.cursor
    }

    /// Reads exactly `amount` bytes; fails without consuming when fewer
    /// remain.
    pub fn read_exact(&mut self, amount: usize) -> (r: Result<Vec<u8>, ()>)
        requires
            old(self).wf(),
        ensures
            final(self).wf(),
            final(self).buf() == old(self).buf(),
            if amount <= old(self).rest().len() {
                &&& r matches Ok(v) && v@ == old(self).rest().take(amount as int)
                &&& final(self).position() == old(self).position() + amount
            } else {
                &&& r is Err
                &&& final(self).position() == old(self).position()
            },
    {
        let n = self.data.len();
        if n - self.cursor < amount {
            return Err(());
        }

        let mut buf: Vec<u8> = Vec::new();
        let mut i: usize = 0;
        while i < amount
            invariant
                self == old(self),
                self.wf(),
                i <= amount,
                amount <= n - self.cursor,
                n == self.data@.len(),
                buf@ =~= old(self).rest().take(amount as int).take(i as int),
            decreases amount - i,
        {
            buf.push(self.data[self.cursor + i]);
            proof {
                assert(buf@ =~= old(self).rest().take(amount as int).take(i + 1));
            }
            i += 1;
        }
        proof {
            assert(buf@ =~= old(self).rest().take(amount as int));
        }
        self.cursor += amount;
        Ok(buf)
    }

    /// Reads one byte; fails without consuming when none remains.
    pub fn read_byte(&mut self) -> (r: Result<u8, ()>)
        requires
            old(self).wf(),
        ensures
            final(self).wf(),
            final(self).buf() == old(self).buf(),
            if old(self).rest().len() >= 1 {
                &&& r matches Ok(b) && b == old(self).rest()[0]
                &&& final(self).position() == old(self).position() + 1
            } else {
                &&& r is Err
                &&& final(self).position() == old(self).position()
            },
    {
        if self.data.len() - self.cursor == 0 {
            return Err(());
        }
        let b = self.data[self.cursor];
        self.cursor += 1;
        Ok(b)
    }
}

} // verus!
