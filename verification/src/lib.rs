//! Core of the LURK text-adventure wire protocol: a binary codec for the
//! thirteen message kinds, stream extraction helpers, and the session-side
//! bookkeeping (write queue, client registry, dispatch rules) of a server
//! built around the codec.

pub mod protocol;
pub mod server;
pub mod util;
