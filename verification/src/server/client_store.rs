//! The session registry: the id-to-session map, and the close-pending set
//! the reaper drains.

use vstd::prelude::*;

use std::collections::HashMap;

use crate::protocol::codec::payload_parse_ok;
use crate::protocol::protocol_message::{
    spec_code_of, spec_server_recipient, LurkMessageBlobify, LurkMessageKind,
};
use crate::server::callbacks::ServerCallbacks;
use crate::server::client_session::ClientSession;
use crate::server::write_queue::WriteQueue;

verus! {

broadcast use vstd::std_specs::hash::group_hash_axioms;

/// The registry of live sessions, with the set of ids flagged for close.
pub struct ServerClientStore {
    clients: HashMap<u128, ClientSession>,
    to_close: Vec<u128>,
}

impl ServerClientStore {
    /// The live sessions by id.
    pub closed spec fn clients_map(&self) -> Map<u128, ClientSession> {
        self.clients@
    }

    /// The ids flagged for close and not yet reaped, in flagging order.
    pub closed spec fn close_pending(&self) -> Seq<u128> {
        self.to_close@
    }

    pub fn new() -> (r: ServerClientStore)
        ensures
            r.clients_map() == Map::<u128, ClientSession>::empty(),
            r.close_pending() == Seq::<u128>::empty(),
    {
        ServerClientStore { clients: HashMap::new(), to_close: vec![] }
    }

    /// Inserts a session under its own id.
    pub fn add_client(&mut self, client: ClientSession)
        ensures
            final(self).clients_map() == old(self).clients_map().insert(client.id(), client),
            final(self).close_pending() == old(self).close_pending(),
    {
        let id = client.get_id();
        self.clients.insert(id, client);
    }

    /// The session under an id, if present.
    pub fn get_client(&self, id: &u128) -> (r: Option<&ClientSession>)
        ensures
            match r {
                Some(c) => self.clients_map().contains_key(*id) && *c == self.clients_map()[*id],
                None => !self.clients_map().contains_key(*id),
            },
    {
        self.clients.get(id)
    }

    /// Drops a session from the registry.
    pub fn remove_client(&mut self, id: &u128)
        ensures
            final(self).clients_map() == old(self).clients_map().remove(*id),
            final(self).close_pending() == old(self).close_pending(),
    {
        self.clients.remove(id);
    }

    /// Flags a live session for close: its id joins the close-pending set
    /// and the session itself stops running.
    pub fn flag_close_client(&mut self, id: &u128)
        ensures
            if old(self).clients_map().contains_key(*id) {
                &&& final(self).close_pending() == old(self).close_pending().push(*id)
                &&& final(self).clients_map().dom() == old(self).clients_map().dom()
                &&& !final(self).clients_map()[*id].running()
                &&& final(self).clients_map()[*id].id() == old(self).clients_map()[*id].id()
                &&& forall|k: u128|
                    old(self).clients_map().contains_key(k) && k != *id
                        ==> final(self).clients_map()[k] == old(self).clients_map()[k]
            } else {
                &&& final(self).close_pending() == old(self).close_pending()
                &&& final(self).clients_map() == old(self).clients_map()
            },
    {
        let found = self.clients.remove(id);
        match found {
            Some(mut client) => {
                self.to_close.push(*id);
                client.flag_close();
                self.clients.insert(*id, client);
                proof {
                    assert(final(self).clients_map().dom() =~= old(self).clients_map().dom());
                }
            },
            None => {
                proof {
                    assert(final(self).clients_map() =~= old(self).clients_map());
                }
            },
        }
    }

    /// Adds an id to the close-pending set without touching the session; the
    /// worker noticed the close on its own.
    pub fn alert_close_client(&mut self, id: &u128)
        ensures
            final(self).clients_map() == old(self).clients_map(),
            final(self).close_pending() == if old(self).clients_map().contains_key(*id) {
                old(self).close_pending().push(*id)
            } else {
                old(self).close_pending()
            },
    {
        if self.clients.contains_key(id) {
            self.to_close.push(*id);
        }
    }

    /// Stops a session running without queueing it for the reaper.
    pub fn shutdown_client(&mut self, id: &u128)
        ensures
            final(self).close_pending() == old(self).close_pending(),
            if old(self).clients_map().contains_key(*id) {
                &&& final(self).clients_map().dom() == old(self).clients_map().dom()
                &&& !final(self).clients_map()[*id].running()
                &&& forall|k: u128|
                    old(self).clients_map().contains_key(k) && k != *id
                        ==> final(self).clients_map()[k] == old(self).clients_map()[k]
            } else {
                final(self).clients_map() == old(self).clients_map()
            },
    {
        let found = self.clients.remove(id);
        match found {
            Some(mut client) => {
                client.flag_close();
                self.clients.insert(*id, client);
                proof {
                    assert(final(self).clients_map().dom() =~= old(self).clients_map().dom());
                }
            },
            None => {
                proof {
                    assert(final(self).clients_map() =~= old(self).clients_map());
                }
            },
        }
    }

    /// Takes the whole close-pending set, leaving it empty: each flagged id
    /// is handed to the reaper exactly once.
    pub fn collect_close_ids(&mut self) -> (r: Vec<u128>)
        ensures
            r@ == old(self).close_pending(),
            final(self).close_pending() == Seq::<u128>::empty(),
            final(self).clients_map() == old(self).clients_map(),
    {
        let mut result: Vec<u128> = vec![];
        std::mem::swap(&mut result, &mut self.to_close);
        result
    }

    /// Dispatches one decoded frame to a live session and, when the
    /// dispatch closes it, queues the session for the reaper. Returns
    /// whether the session is still open; an absent target counts as closed.
    pub fn update_client<T: ServerCallbacks>(
        &mut self,
        id: &u128,
        kind: LurkMessageKind,
        data: &[u8],
        callbacks: &mut T,
        queue: &mut WriteQueue,
    ) -> (r: bool)
        ensures
            final(self).clients_map().dom() == old(self).clients_map().dom(),
            forall|k: u128|
                old(self).clients_map().contains_key(k) && k != *id
                    ==> final(self).clients_map()[k] == old(self).clients_map()[k],
            !old(self).clients_map().contains_key(*id) ==> !r && final(self).clients_map() == old(
                self,
            ).clients_map() && final(self).close_pending() == old(self).close_pending(),
            old(self).clients_map().contains_key(*id) ==> {
                let session = final(self).clients_map()[*id];
                &&& r == session.running()
                &&& session.id() == old(self).clients_map()[*id].id()
                &&& session.running() ==> old(self).clients_map()[*id].running()
                &&& !spec_server_recipient(kind) ==> !session.running()
                &&& kind == LurkMessageKind::Leave ==> !session.running()
                &&& spec_server_recipient(kind) && kind != LurkMessageKind::Leave
                    && !payload_parse_ok(spec_code_of(kind), data@) ==> !session.running()
                &&& final(self).close_pending() == if session.running() {
                    old(self).close_pending()
                } else {
                    old(self).close_pending().push(*id)
                }
            },
    {
        let found = self.clients.remove(id);
        match found {
            Some(mut client) => {
                let keep_open = client.update(kind, data, callbacks, queue);
                self.clients.insert(*id, client);
                if !keep_open {
                    self.to_close.push(*id);
                }
                proof {
                    assert(final(self).clients_map().dom() =~= old(self).clients_map().dom());
                }
                keep_open
            },
            None => {
                proof {
                    assert(final(self).clients_map() =~= old(self).clients_map());
                }
                false
            },
        }
    }

    /// Accrues elapsed time on one session's inactivity clock.
    pub fn accrue_client(&mut self, id: &u128, elapsed_ms: u64)
        ensures
            final(self).close_pending() == old(self).close_pending(),
            final(self).clients_map().dom() == old(self).clients_map().dom(),
            forall|k: u128|
                old(self).clients_map().contains_key(k) && k != *id
                    ==> final(self).clients_map()[k] == old(self).clients_map()[k],
            old(self).clients_map().contains_key(*id) ==> {
                let session = final(self).clients_map()[*id];
                let before = old(self).clients_map()[*id];
                &&& session.id() == before.id()
                &&& session.running() == before.running()
                &&& session.inactivity() == if before.inactivity() + elapsed_ms <= u64::MAX {
                    before.inactivity() + elapsed_ms
                } else {
                    u64::MAX as int
                }
            },
    {
        let found = self.clients.remove(id);
        match found {
            Some(mut client) => {
                client.accrue_inactivity(elapsed_ms);
                self.clients.insert(*id, client);
                proof {
                    assert(final(self).clients_map().dom() =~= old(self).clients_map().dom());
                }
            },
            None => {
                proof {
                    assert(final(self).clients_map() =~= old(self).clients_map());
                }
            },
        }
    }

    /// Whether a session has been silent longer than the allowed timeout;
    /// an absent session has not.
    pub fn client_expired(&self, id: &u128, timeout_ms: u64) -> (r: bool)
        ensures
            r == (self.clients_map().contains_key(*id)
                && self.clients_map()[*id].inactivity() > timeout_ms),
    {
        match self.clients.get(id) {
            Some(client) => client.inactivity_expired(timeout_ms),
            None => false,
        }
    }

    /// Frames one message for one session: the bytes to put on that
    /// session's transport, or an error when the target is absent.
    pub fn write_client<F: LurkMessageBlobify>(&self, packet: &F, id: &u128) -> (r: Result<
        Vec<u8>,
        (),
    >)
        requires
            packet.wire_wf(),
        ensures
            if self.clients_map().contains_key(*id) {
                r matches Ok(v) && v@ == packet.spec_blob()
            } else {
                r is Err
            },
    {
        if self.clients.contains_key(id) {
            Ok(packet.produce_lurk_message_blob())
        } else {
            Err(())
        }
    }
}

} // verus!
