//! The send channel: encodes messages and appends the frames to an outbound
//! byte buffer, which the host hands to its transport in one piece.

use vstd::prelude::*;

use crate::protocol::protocol_message::LurkMessageBlobify;

verus! {

/// A channel that frames messages into an outbound byte buffer.
pub struct LurkSendChannel<'a> {
    target: &'a mut Vec<u8>,
}

impl<'a> LurkSendChannel<'a> {
    /// The bytes written so far.
    pub closed spec fn buffer(&self) -> Seq<u8> {
        self.target@
    }

    pub fn new(target: &'a mut Vec<u8>) -> (r: LurkSendChannel<'a>)
        ensures
            r.buffer() == old(target)@,
    {
        LurkSendChannel { target }
    }

    /// Appends the complete frame of one message to the buffer.
    pub fn write_message<F: LurkMessageBlobify>(&mut self, message: &F) -> (r: Result<(), ()>)
        requires
            message.wire_wf(),
        ensures
            r is Ok,
            final(self).buffer() == old(self).buffer() + message.spec_blob(),
    {
        let data = message.produce_lurk_message_blob();
        self.target.extend_from_slice(data.as_slice());
        Ok(())
    }
}

} // verus!
