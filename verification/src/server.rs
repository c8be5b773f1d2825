//! The server core: session records and their dispatch rules, the session
//! registry, the serialized write queue, the contexts handed to game logic,
//! and the worker-slot bookkeeping. The host owns the sockets and threads
//! and drives these pieces.

pub mod callbacks;
pub mod client_session;
pub mod client_store;
pub mod context;
pub mod ids;
pub mod thread_pool;
pub mod write_queue;
