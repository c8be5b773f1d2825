//! The capability handed to game logic: contexts that can enqueue outbound
//! traffic without touching any connection directly.

use vstd::prelude::*;

use crate::protocol::protocol_message::{lurk_message_view_eq, LurkMessage};
use crate::server::write_queue::{Sender, WriteQueue, WriteQueueItem};

verus! {

/// The write capability the engine hands to the behavior's frame update: it
/// can enqueue traffic for any session, attributed to the server.
pub struct ServerAccess<'a> {
    write_queue: &'a mut WriteQueue,
}

impl<'a> ServerAccess<'a> {
    /// The orders queued so far.
    pub closed spec fn items(&self) -> Seq<WriteQueueItem> {
        (*self.write_queue)@
    }

    pub fn new(write_queue: &'a mut WriteQueue) -> (r: ServerAccess<'a>)
        ensures
            r.items() == old(write_queue)@,
    {
        ServerAccess { write_queue }
    }

    /// Queues one message for the given target, attributed to the server.
    pub fn enqueue_message(&mut self, message: LurkMessage, target: &u128)
        ensures
            final(self).items() == old(self).items().push(
                WriteQueueItem { packet: message, target: *target, sender: Sender::Server },
            ),
    {
        let item = WriteQueueItem::new(message, Sender::Server, *target);
        self.write_queue.enqueue_message(item);
    }

    /// Queues copies of one message for each listed target in order, all
    /// attributed to the server.
    pub fn enqueue_message_many(&mut self, message: &LurkMessage, targets: &[u128])
        ensures
            final(self).items().len() == old(self).items().len() + targets@.len(),
            forall|i: int|
                0 <= i < old(self).items().len() ==> final(self).items()[i] == old(self).items()[i],
            forall|i: int|
                0 <= i < targets@.len() ==> {
                    let item = #[trigger] final(self).items()[old(self).items().len() + i];
                    &&& item.target == targets@[i]
                    &&& item.sender == Sender::Server
                    &&& lurk_message_view_eq(item.packet, *message)
                },
    {
        let n = targets.len();
        let mut i: usize = 0;
        while i < n
            invariant
                i <= n == targets@.len(),
                self.items().len() == old(self).items().len() + i,
                forall|j: int|
                    0 <= j < old(self).items().len() ==> self.items()[j] == old(self).items()[j],
                forall|j: int|
                    0 <= j < i ==> {
                        let item = #[trigger] self.items()[old(self).items().len() + j];
                        &&& item.target == targets@[j]
                        &&& item.sender == Sender::Server
                        &&& lurk_message_view_eq(item.packet, *message)
                    },
            decreases n - i,
        {
            let item = WriteQueueItem::new(message.clone(), Sender::Server, targets[i]);
            self.write_queue.enqueue_message(item);
            i += 1;
        }
    }
}

/// The capability handed to per-event callbacks: the session the event came
/// from, and the power to enqueue traffic for any session, attributed to
/// that client.
pub struct ServerEventContext<'a> {
    write_queue: &'a mut WriteQueue,
    client_id: u128,
}

impl<'a> ServerEventContext<'a> {
    /// The orders queued so far.
    pub closed spec fn items(&self) -> Seq<WriteQueueItem> {
        (*self.write_queue)@
    }

    /// The session the current event belongs to.
    pub closed spec fn id(&self) -> u128 {
        self.client_id
    }

    pub fn new(write_queue: &'a mut WriteQueue, client_id: u128) -> (r: ServerEventContext<'a>)
        ensures
            r.items() == old(write_queue)@,
            r.id() == client_id,
    {
        ServerEventContext { write_queue, client_id }
    }

    pub fn get_client_id(&self) -> (r: u128)
        ensures
            r == self.id(),
    {
        self.client_id
    }

    /// Queues one message for the given target, attributed to this client.
    pub fn enqueue_message(&mut self, message: LurkMessage, target: u128)
        ensures
            final(self).id() == old(self).id(),
            final(self).items() == old(self).items().push(
                WriteQueueItem {
                    packet: message,
                    target,
                    sender: Sender::Client(old(self).id()),
                },
            ),
    {
        let sender_id = self.client_id;
        let item = WriteQueueItem::new(message, Sender::Client(sender_id), target);
        self.write_queue.enqueue_message(item);
    }

    /// Queues copies of one message for each listed target in order, all
    /// attributed to this client.
    pub fn enqueue_message_many(&mut self, message: &LurkMessage, targets: &[u128])
        ensures
            final(self).id() == old(self).id(),
            final(self).items().len() == old(self).items().len() + targets@.len(),
            forall|i: int|
                0 <= i < old(self).items().len() ==> final(self).items()[i] == old(self).items()[i],
            forall|i: int|
                0 <= i < targets@.len() ==> {
                    let item = #[trigger] final(self).items()[old(self).items().len() + i];
                    &&& item.target == targets@[i]
                    &&& item.sender == Sender::Client(old(self).id())
                    &&& lurk_message_view_eq(item.packet, *message)
                },
    {
        let n = targets.len();
        let mut i: usize = 0;
        while i < n
            invariant
                i <= n == targets@.len(),
                self.id() == old(self).id(),
                self.items().len() == old(self).items().len() + i,
                forall|j: int|
                    0 <= j < old(self).items().len() ==> self.items()[j] == old(self).items()[j],
                forall|j: int|
                    0 <= j < i ==> {
                        let item = #[trigger] self.items()[old(self).items().len() + j];
                        &&& item.target == targets@[j]
                        &&& item.sender == Sender::Client(old(self).id())
                        &&& lurk_message_view_eq(item.packet, *message)
                    },
            decreases n - i,
        {
            let sender_id = self.client_id;
            let item = WriteQueueItem::new(message.clone(), Sender::Client(sender_id), targets[i]);
            self.write_queue.enqueue_message(item);
            i += 1;
        }
    }

    /// Queues one message back to the session the event came from.
    pub fn enqueue_message_this(&mut self, message: LurkMessage)
        ensures
            final(self).id() == old(self).id(),
            final(self).items() == old(self).items().push(
                WriteQueueItem {
                    packet: message,
                    target: old(self).id(),
                    sender: Sender::Client(old(self).id()),
                },
            ),
    {
        let id = self.client_id;
        self.enqueue_message(message, id);
    }
}

} // verus!
