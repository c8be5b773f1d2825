//! Event fan-out: raw frames queue up as events, and bound handlers see each
//! distributed event.

use vstd::prelude::*;

use crate::protocol::protocol_message::LurkMessageFrame;

verus! {

/// A raw frame wrapped as an event for handlers.
#[derive(Clone)]
pub struct LurkEvent {
    pub frame: LurkMessageFrame,
}

/// Something that hands queued events to its handlers.
pub trait EventDistributor {
    /// Whether every bound handler may be called on any event.
    spec fn wf(&self) -> bool;

    fn distribute_event(&mut self, event: &LurkEvent)
        requires
            old(self).wf(),
        ensures
            final(self).wf(),
    ;
}

/// A queue of events and the handlers they are distributed to.
pub struct EventReceiver<F> where F: Fn(&LurkEvent) {
    handlers: Vec<F>,
    event_queue: Vec<LurkEvent>,
}

impl<F> EventReceiver<F> where F: Fn(&LurkEvent) {
    /// Every bound handler accepts every event.
    pub closed spec fn handlers_ok(&self) -> bool {
        forall|i: int, e: LurkEvent|
            0 <= i < self.handlers@.len() ==> #[trigger] self.handlers@[i].requires((&e,))
    }

    /// The events waiting to be distributed.
    pub closed spec fn queue(&self) -> Seq<LurkEvent> {
        self.event_queue@
    }

    pub fn new() -> (r: EventReceiver<F>)
        ensures
            r.handlers_ok(),
            r.queue() == Seq::<LurkEvent>::empty(),
    {
        EventReceiver { handlers: vec![], event_queue: vec![] }
    }

    /// Binds a handler; it must accept every event.
    pub fn bind_handler(&mut self, handler: F)
        requires
            old(self).handlers_ok(),
            forall|e: LurkEvent| #[trigger] handler.requires((&e,)),
        ensures
            final(self).handlers_ok(),
            final(self).queue() == old(self).queue(),
    {
        self.handlers.push(handler);
    }

    /// Queues an event for a later distribution round.
    pub fn push_event(&mut self, event: LurkEvent)
        requires
            old(self).handlers_ok(),
        ensures
            final(self).handlers_ok(),
            final(self).queue() == old(self).queue().push(event),
    {
        self.event_queue.push(event);
    }
}

impl<F> EventDistributor for EventReceiver<F> where F: Fn(&LurkEvent) {
    open spec fn wf(&self) -> bool {
        self.handlers_ok()
    }

    /// Pops the most recently queued event, if any, and hands it to every
    /// bound handler in binding order.
    fn distribute_event(&mut self, _event: &LurkEvent)
        ensures
            final(self).queue() == if old(self).queue().len() > 0 {
                old(self).queue().drop_last()
            } else {
                old(self).queue()
            },
    {
        let event_op = self.event_queue.pop();

        if let Some(event) = event_op {
            let n = self.handlers.len();
            let mut i: usize = 0;
            while i < n
                invariant
                    self.handlers_ok(),
                    n == self.handlers@.len(),
                    i <= n,
                decreases n - i,
            {
                let handler = &self.handlers[i];
                handler(&event);
                i += 1;
            }
        }
    }
}

} // verus!
