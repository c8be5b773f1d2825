//! Worker-slot bookkeeping for the bounded pool of per-session decode
//! workers: the host spawns and joins the actual threads, and this gauge
//! decides when the pool is full.

use vstd::prelude::*;

verus! {

/// The bounded pool's occupancy: how many worker slots exist and how many
/// are taken.
pub struct ClientThreadPool {
    max_threads: usize,
    num_active: usize,
}

impl ClientThreadPool {
    /// The bound the pool was created with.
    pub closed spec fn capacity(&self) -> usize {
        self.max_threads
    }

    /// How many workers hold a slot.
    pub closed spec fn active(&self) -> usize {
        self.num_active
    }

    /// No more workers than slots.
    pub closed spec fn wf(&self) -> bool {
        self.num_active <= self.max_threads
    }

    pub fn new(size: usize) -> (r: ClientThreadPool)
        ensures
            r.wf(),
            r.capacity() == size,
            r.active() == 0,
    {
        ClientThreadPool { max_threads: size, num_active: 0 }
    }

    /// Whether every worker slot is taken.
    pub fn is_full(&self) -> (r: bool)
        requires
            self.wf(),
        ensures
            r == (self.active() == self.capacity()),
    {
        self.num_active == self.max_threads
    }

    /// Claims a worker slot for one session; refused exactly when the pool
    /// is full, so a session beyond the bound must wait for a reaped one.
    pub fn start_client(&mut self) -> (r: Result<(), ()>)
        requires
            old(self).wf(),
        ensures
            final(self).wf(),
            final(self).capacity() == old(self).capacity(),
            if old(self).active() < old(self).capacity() {
                r is Ok && final(self).active() == old(self).active() + 1
            } else {
                r is Err && final(self).active() == old(self).active()
            },
    {
        if !self.is_full() {
            self.num_active = self.num_active + 1;
            Ok(())
        } else {
            Err(())
        }
    }

    /// Releases a worker slot when its session's worker exits.
    pub fn end_client(&mut self)
        requires
            old(self).wf(),
            old(self).active() > 0,
        ensures
            final(self).wf(),
            final(self).capacity() == old(self).capacity(),
            final(self).active() == old(self).active() - 1,
    {
        self.num_active = self.num_active - 1;
    }
}

} // verus!
