//! The serialized outbound write queue: a FIFO of encoded-message orders,
//! each naming its target session and the sender it is attributed to.

use vstd::prelude::*;

use crate::protocol::protocol_message::{
    lurk_message_blob, lurk_message_wf, LurkMessage, LurkMessageBlobify,
};

verus! {

/// Who a queued write is attributed to.
#[derive(Clone, Copy, PartialEq, Eq, Structural, Debug)]
pub enum Sender {
    Server,
    Client(u128),
}

/// One outbound order: a message for one target session.
pub struct WriteQueueItem {
    pub packet: LurkMessage,
    pub target: u128,
    pub sender: Sender,
}

impl WriteQueueItem {
    pub fn new(packet: LurkMessage, sender: Sender, target: u128) -> (r: WriteQueueItem)
        ensures
            r == (WriteQueueItem { packet, target, sender }),
    {
        WriteQueueItem { packet, target, sender }
    }
}

/// A FIFO of outbound orders; items leave in the order they entered.
pub struct WriteQueue {
    items: Vec<WriteQueueItem>,
}

impl View for WriteQueue {
    type V = Seq<WriteQueueItem>;

    closed spec fn view(&self) -> Seq<WriteQueueItem> {
        self.items@
    }
}

/// Every queued packet obeys the bounds under which it can be framed.
pub open spec fn queue_items_wf(items: Seq<WriteQueueItem>) -> bool {
    forall|i: int| 0 <= i < items.len() ==> lurk_message_wf(#[trigger] items[i].packet)
}

impl WriteQueue {
    pub fn new() -> (r: WriteQueue)
        ensures
            r@ == Seq::<WriteQueueItem>::empty(),
    {
        WriteQueue { items: vec![] }
    }

    /// Appends one order at the back.
    pub fn enqueue_message(&mut self, item: WriteQueueItem)
        ensures
            final(self)@ == old(self)@.push(item),
    {
        self.items.push(item);
    }

    /// How many orders are queued.
    pub fn len(&self) -> (r: usize)
        ensures
            r == self@.len(),
    {
        self.items.len()
    }

    /// Removes and returns the oldest order, if any.
    pub fn pop_message(&mut self) -> (r: Option<WriteQueueItem>)
        ensures
            if old(self)@.len() > 0 {
                &&& r matches Some(item) && item == old(self)@[0]
                &&& final(self)@ == old(self)@.drop_first()
            } else {
                &&& r is None
                &&& final(self)@ == old(self)@
            },
    {
        if self.items.len() > 0 {
            Some(self.items.remove(0))
        } else {
            None
        }
    }
}

impl Default for WriteQueue {
    fn default() -> (r: Self)
        ensures
            r@ == Seq::<WriteQueueItem>::empty(),
    {
        WriteQueue { items: vec![] }
    }
}

/// The frames queued for one target, concatenated in queue order.
pub open spec fn frames_for_target(items: Seq<WriteQueueItem>, target: u128) -> Seq<u8>
    decreases items.len(),
{
    if items.len() == 0 {
        Seq::<u8>::empty()
    } else if items[0].target == target {
        lurk_message_blob(items[0].packet) + frames_for_target(items.drop_first(), target)
    } else {
        frames_for_target(items.drop_first(), target)
    }
}

/// Empties the queue, framing every order in queue order: the result lists,
/// oldest first, each order's target and its complete encoded frame.
pub fn drain_write_queue(queue: &mut WriteQueue) -> (r: Vec<(u128, Vec<u8>)>)
    requires
        queue_items_wf(old(queue)@),
    ensures
        final(queue)@ == Seq::<WriteQueueItem>::empty(),
        r@.len() == old(queue)@.len(),
        forall|i: int|
            0 <= i < r@.len() ==> (#[trigger] r@[i]).0 == old(queue)@[i].target && r@[i].1@
                == lurk_message_blob(old(queue)@[i].packet),
{
    let mut result: Vec<(u128, Vec<u8>)> = Vec::new();
    while queue.len() > 0
        invariant
            queue_items_wf(old(queue)@),
            result@.len() <= old(queue)@.len(),
            queue@ =~= old(queue)@.skip(result@.len() as int),
            forall|i: int|
                0 <= i < result@.len() ==> (#[trigger] result@[i]).0 == old(queue)@[i].target
                    && result@[i].1@ == lurk_message_blob(old(queue)@[i].packet),
        decreases queue@.len(),
    {
        let next = queue.pop_message();
        match next {
            Some(item) => {
                proof {
                    assert(item == old(queue)@[result@.len() as int]);
                }
                let bytes = match &item.packet {
                    LurkMessage::Message(m) => m.produce_lurk_message_blob(),
                    LurkMessage::ChangeRoom(m) => m.produce_lurk_message_blob(),
                    LurkMessage::Fight(m) => m.produce_lurk_message_blob(),
                    LurkMessage::PvpFight(m) => m.produce_lurk_message_blob(),
                    LurkMessage::Loot(m) => m.produce_lurk_message_blob(),
                    LurkMessage::Start(m) => m.produce_lurk_message_blob(),
                    LurkMessage::Error(m) => m.produce_lurk_message_blob(),
                    LurkMessage::Accept(m) => m.produce_lurk_message_blob(),
                    LurkMessage::Room(m) => m.produce_lurk_message_blob(),
                    LurkMessage::Character(m) => m.produce_lurk_message_blob(),
                    LurkMessage::Game(m) => m.produce_lurk_message_blob(),
                    LurkMessage::Leave(m) => m.produce_lurk_message_blob(),
                    LurkMessage::Connection(m) => m.produce_lurk_message_blob(),
                };
                result.push((item.target, bytes));
                proof {
                    assert(queue@ =~= old(queue)@.skip(result@.len() as int));
                }
            },
            None => {
                proof {
                    assert(false);
                }
            },
        }
    }
    proof {
        assert(queue@ =~= Seq::<WriteQueueItem>::empty());
        assert(result@.len() == old(queue)@.len());
    }
    result
}

/// Concatenated payloads of the drained orders that name one target, in
/// drain order.
pub open spec fn drained_for_target(out: Seq<(u128, Seq<u8>)>, target: u128) -> Seq<u8>
    decreases out.len(),
{
    if out.len() == 0 {
        Seq::<u8>::empty()
    } else if out[0].0 == target {
        out[0].1 + drained_for_target(out.drop_first(), target)
    } else {
        drained_for_target(out.drop_first(), target)
    }
}

/// Orders drained from the queue reach each target in enqueue order: for any
/// target, the bytes handed out for it concatenate to exactly that target's
/// queued frames, oldest first, with no reordering and no interleaving.
pub proof fn lemma_write_ordering(
    items: Seq<WriteQueueItem>,
    out: Seq<(u128, Seq<u8>)>,
    target: u128,
)
    requires
        out.len() == items.len(),
        forall|i: int|
            0 <= i < out.len() ==> (#[trigger] out[i]).0 == items[i].target && out[i].1
                == lurk_message_blob(items[i].packet),
    ensures
        drained_for_target(out, target) == frames_for_target(items, target),
    decreases items.len(),
{
    if items.len() > 0 {
        assert forall|i: int| 0 <= i < out.drop_first().len() implies (#[trigger] out.drop_first()[
            i
        ]).0 == items.drop_first()[i].target && out.drop_first()[i].1 == lurk_message_blob(
            items.drop_first()[i].packet,
        ) by {
            assert(out[i + 1].0 == items[i + 1].target);
        }
        lemma_write_ordering(items.drop_first(), out.drop_first(), target);
    }
}

} // verus!
