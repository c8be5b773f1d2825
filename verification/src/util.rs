//! Small helpers: chained result checking and a byte-sized bit field.

use vstd::prelude::*;

verus! {

pub type LurkResult<T> = Result<T, String>;

/// Records across a chain of checks whether any checked result was an error.
pub trait ResultLinkChecker: Sized {
    /// Whether no error has been recorded so far.
    spec fn all_ok(&self) -> bool;

    fn check<T, E>(&mut self, result: &Result<T, E>) -> (ret: &mut Self)
        ensures
            (*ret).all_ok() == (old(self).all_ok() && !(result is Err)),
            *final(self) == *final(ret),
    ;
}

pub struct ResultChainChecker {
    error_found: bool,
}

impl ResultChainChecker {
    pub closed spec fn spec_success(&self) -> bool {
        !self.error_found
    }

    pub fn new() -> (r: ResultChainChecker)
        ensures
            r.spec_success(),
    {
        ResultChainChecker { error_found: false }
    }

    pub fn success(&self) -> (r: bool)
        ensures
            r == self.spec_success(),
    {
        !self.error_found
    }
}

impl ResultLinkChecker for ResultChainChecker {
    open spec fn all_ok(&self) -> bool {
        self.spec_success()
    }

    fn check<T, E>(&mut self, result: &Result<T, E>) -> (ret: &mut Self) {
        if result.is_err() {
            self.error_found = true;
        }
        self
    }
}

/// A byte read and written bit by bit; bit 0 is the least significant.
pub struct BitField {
    pub field: u8,
}

impl BitField {
    /// Whether the given bit of a byte is set.
    pub open spec fn spec_get(field: u8, index: u8) -> bool {
        field & (1u8 << index) != 0
    }

    pub fn get(&self, index: u8) -> (r: bool)
        requires
            index < 8,
        ensures
            r == BitField::spec_get(self.field, index),
    {
        self.field & (1u8 << index) != 0
    }

    pub fn set(&mut self, index: u8)
        requires
            index < 8,
        ensures
            final(self).field == old(self).field | (1u8 << index),
    {
        self.field = self.field | (1u8 << index)
    }

    pub fn clear(&mut self, index: u8)
        requires
            index < 8,
        ensures
            final(self).field == old(self).field & !(1u8 << index),
    {
        self.field = self.field & !(1u8 << index)
    }

    pub fn configure(&mut self, index: u8, status: bool)
        requires
            index < 8,
        ensures
            final(self).field == if status {
                old(self).field | (1u8 << index)
            } else {
                old(self).field & !(1u8 << index)
            },
    {
        if status {
            self.set(index);
        } else {
            self.clear(index);
        }
    }
}

} // verus!
