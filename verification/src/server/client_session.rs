//! The server-side session record: its identity, its close flag, its
//! inactivity clock, and the dispatch of one decoded frame to the behavior.

use vstd::prelude::*;

use crate::protocol::codec::payload_parse_ok;
use crate::protocol::protocol_message::{
    spec_code_of, spec_server_recipient, Character, ChangeRoom, Fight, Loot, LurkMessage,
    LurkMessageKind, LurkMessageParse, Message, PvpFight, Start,
};
use crate::server::callbacks::{LurkServerError, ServerCallbacks};
use crate::server::context::ServerEventContext;
use crate::server::ids::generate_session_id;
use crate::server::write_queue::WriteQueue;

verus! {

/// What the session does with one incoming frame of the given kind.
#[derive(Clone, Copy, PartialEq, Eq, Structural, Debug)]
pub enum FrameDisposition {
    /// A server-recipient frame: parse it and invoke the matching handler.
    Dispatch,
    /// The client asked to leave: invoke the handler, then close.
    CloseLeave,
    /// A kind the server may not receive: close without any handler.
    CloseProtocol,
}

/// The direction rule of frame dispatch: server-recipient kinds are
/// dispatched, `Leave` also closes, every other kind is a violation.
pub open spec fn spec_classify(kind: LurkMessageKind) -> FrameDisposition {
    if kind == LurkMessageKind::Leave {
        FrameDisposition::CloseLeave
    } else if spec_server_recipient(kind) {
        FrameDisposition::Dispatch
    } else {
        FrameDisposition::CloseProtocol
    }
}

/// How the server treats a frame of each kind: exactly the direction rule.
pub fn classify_frame(kind: LurkMessageKind) -> (r: FrameDisposition)
    ensures
        r == spec_classify(kind),
{
    match kind {
        LurkMessageKind::Leave => FrameDisposition::CloseLeave,
        LurkMessageKind::Message => FrameDisposition::Dispatch,
        LurkMessageKind::ChangeRoom => FrameDisposition::Dispatch,
        LurkMessageKind::Fight => FrameDisposition::Dispatch,
        LurkMessageKind::PvPFight => FrameDisposition::Dispatch,
        LurkMessageKind::Loot => FrameDisposition::Dispatch,
        LurkMessageKind::Start => FrameDisposition::Dispatch,
        LurkMessageKind::Character => FrameDisposition::Dispatch,
        _ => FrameDisposition::CloseProtocol,
    }
}

/// One live connection as the engine tracks it: the transport itself stays
/// with the host, which feeds decoded frames in and carries framed bytes
/// out.
pub struct ClientSession {
    id: u128,
    keep_open: bool,
    pending: Vec<LurkMessage>,
    inactivity_ms: u64,
}

impl ClientSession {
    /// The session's identifier.
    pub closed spec fn id(&self) -> u128 {
        self.id
    }

    /// Whether the session is still open.
    pub closed spec fn running(&self) -> bool {
        self.keep_open
    }

    /// Outbound messages waiting for the transport.
    pub closed spec fn pending_view(&self) -> Seq<LurkMessage> {
        self.pending@
    }

    /// Milliseconds since the session last saw traffic.
    pub closed spec fn inactivity(&self) -> u64 {
        self.inactivity_ms
    }

    /// A new session under a freshly generated identifier: open, with no
    /// pending traffic and no inactivity.
    pub fn new() -> (r: ClientSession)
        ensures
            r.running(),
            r.pending_view() == Seq::<LurkMessage>::empty(),
            r.inactivity() == 0,
    {
        ClientSession { id: generate_session_id(), keep_open: true, pending: vec![], inactivity_ms: 0 }
    }

    pub fn get_id(&self) -> (r: u128)
        ensures
            r == self.id(),
    {
        self.id
    }

    pub fn is_running(&self) -> (r: bool)
        ensures
            r == self.running(),
    {
        self.keep_open
    }

    /// Marks the session for close; idempotent.
    pub fn flag_close(&mut self)
        ensures
            !final(self).running(),
            final(self).id() == old(self).id(),
            final(self).pending_view() == old(self).pending_view(),
            final(self).inactivity() == old(self).inactivity(),
    {
        self.keep_open = false;
    }

    /// Queues one outbound message on this session.
    pub fn enqueue_message(&mut self, lurk_message: LurkMessage)
        ensures
            final(self).id() == old(self).id(),
            final(self).running() == old(self).running(),
            final(self).inactivity() == old(self).inactivity(),
            final(self).pending_view() == old(self).pending_view().push(lurk_message),
    {
        self.pending.push(lurk_message);
    }

    /// Hands the oldest pending outbound message to the transport, if any.
    pub fn next_pending(&mut self) -> (r: Option<LurkMessage>)
        ensures
            final(self).id() == old(self).id(),
            final(self).running() == old(self).running(),
            final(self).inactivity() == old(self).inactivity(),
            if old(self).pending_view().len() > 0 {
                &&& r matches Some(m) && m == old(self).pending_view()[0]
                &&& final(self).pending_view() == old(self).pending_view().drop_first()
            } else {
                &&& r is None
                &&& final(self).pending_view() == old(self).pending_view()
            },
    {
        if self.pending.len() > 0 {
            Some(self.pending.remove(0))
        } else {
            None
        }
    }

    /// Resets the inactivity clock: the session just saw traffic.
    pub fn record_activity(&mut self)
        ensures
            final(self).id() == old(self).id(),
            final(self).running() == old(self).running(),
            final(self).pending_view() == old(self).pending_view(),
            final(self).inactivity() == 0,
    {
        self.inactivity_ms = 0;
    }

    /// Accrues elapsed time on the inactivity clock, saturating.
    pub fn accrue_inactivity(&mut self, elapsed_ms: u64)
        ensures
            final(self).id() == old(self).id(),
            final(self).running() == old(self).running(),
            final(self).pending_view() == old(self).pending_view(),
            final(self).inactivity() == if old(self).inactivity() + elapsed_ms <= u64::MAX {
                old(self).inactivity() + elapsed_ms
            } else {
                u64::MAX as int
            },
    {
        self.inactivity_ms = if self.inactivity_ms <= u64::MAX - elapsed_ms {
            self.inactivity_ms + elapsed_ms
        } else {
            u64::MAX
        };
    }

    /// Folds a handler's outcome into the session: it stays open exactly
    /// when it was open before and the handler returned no error.
    pub fn note_handler_result(&mut self, result: LurkServerError)
        ensures
            final(self).id() == old(self).id(),
            final(self).pending_view() == old(self).pending_view(),
            final(self).inactivity() == old(self).inactivity(),
            final(self).running() == (old(self).running() && result is Ok),
    {
        if result.is_err() {
            self.flag_close();
        }
    }

    /// Whether the session has been silent longer than the allowed timeout.
    pub fn inactivity_expired(&self, timeout_ms: u64) -> (r: bool)
        ensures
            r == (self.inactivity() > timeout_ms),
    {
        self.inactivity_ms > timeout_ms
    }

    /// Dispatches one decoded frame: a server-recipient frame that parses is
    /// handed to the matching handler (and resets the inactivity clock); a
    /// `Leave` is handed to its handler and closes the session; a malformed
    /// payload, a failing handler, or a kind the server may not receive
    /// closes the session. Returns whether the session is still open.
    pub fn update<T: ServerCallbacks>(
        &mut self,
        kind: LurkMessageKind,
        data: &[u8],
        callbacks: &mut T,
        queue: &mut WriteQueue,
    ) -> (r: bool)
        ensures
            final(self).id() == old(self).id(),
            final(self).pending_view() == old(self).pending_view(),
            r == final(self).running(),
            final(self).running() ==> old(self).running(),
            !spec_server_recipient(kind) ==> !final(self).running(),
            kind == LurkMessageKind::Leave ==> !final(self).running(),
            spec_server_recipient(kind) && kind != LurkMessageKind::Leave && !payload_parse_ok(
                spec_code_of(kind),
                data@,
            ) ==> !final(self).running(),
            spec_server_recipient(kind) && kind != LurkMessageKind::Leave && payload_parse_ok(
                spec_code_of(kind),
                data@,
            ) ==> final(self).inactivity() == 0,
    {
        let disposition = classify_frame(kind);

        match disposition {
            FrameDisposition::CloseProtocol => {
                self.flag_close();
            },
            FrameDisposition::CloseLeave => {
                let id = self.id;
                let outcome = callbacks.on_leave(&id);
                self.note_handler_result(outcome);
                self.flag_close();
            },
            FrameDisposition::Dispatch => {
                let id = self.id;
                match kind {
                    LurkMessageKind::Message => {
                        match Message::parse_lurk_message(data) {
                            Ok((message, _)) => {
                                self.record_activity();
                                let mut context = ServerEventContext::new(queue, id);
                                let outcome = callbacks.on_message(&mut context, &message);
                                self.note_handler_result(outcome);
                            },
                            Err(_) => {
                                self.flag_close();
                            },
                        }
                    },
                    LurkMessageKind::ChangeRoom => {
                        match ChangeRoom::parse_lurk_message(data) {
                            Ok((message, _)) => {
                                self.record_activity();
                                let mut context = ServerEventContext::new(queue, id);
                                let outcome = callbacks.on_change_room(&mut context, &message);
                                self.note_handler_result(outcome);
                            },
                            Err(_) => {
                                self.flag_close();
                            },
                        }
                    },
                    LurkMessageKind::Fight => {
                        match Fight::parse_lurk_message(data) {
                            Ok((message, _)) => {
                                self.record_activity();
                                let mut context = ServerEventContext::new(queue, id);
                                let outcome = callbacks.on_fight(&mut context, &message);
                                self.note_handler_result(outcome);
                            },
                            Err(_) => {
                                self.flag_close();
                            },
                        }
                    },
                    LurkMessageKind::PvPFight => {
                        match PvpFight::parse_lurk_message(data) {
                            Ok((message, _)) => {
                                self.record_activity();
                                let mut context = ServerEventContext::new(queue, id);
                                let outcome = callbacks.on_pvp_fight(&mut context, &message);
                                self.note_handler_result(outcome);
                            },
                            Err(_) => {
                                self.flag_close();
                            },
                        }
                    },
                    LurkMessageKind::Loot => {
                        match Loot::parse_lurk_message(data) {
                            Ok((message, _)) => {
                                self.record_activity();
                                let mut context = ServerEventContext::new(queue, id);
                                let outcome = callbacks.on_loot(&mut context, &message);
                                self.note_handler_result(outcome);
                            },
                            Err(_) => {
                                self.flag_close();
                            },
                        }
                    },
                    LurkMessageKind::Start => {
                        match Start::parse_lurk_message(data) {
                            Ok((message, _)) => {
                                self.record_activity();
                                let mut context = ServerEventContext::new(queue, id);
                                let outcome = callbacks.on_start(&mut context, &message);
                                self.note_handler_result(outcome);
                            },
                            Err(_) => {
                                self.flag_close();
                            },
                        }
                    },
                    LurkMessageKind::Character => {
                        match Character::parse_lurk_message(data) {
                            Ok((message, _)) => {
                                self.record_activity();
                                let mut context = ServerEventContext::new(queue, id);
                                let outcome = callbacks.on_character(&mut context, &message);
                                self.note_handler_result(outcome);
                            },
                            Err(_) => {
                                self.flag_close();
                            },
                        }
                    },
                    _ => {
                        self.flag_close();
                    },
                }
            },
        }

        self.is_running()
    }
}

} // verus!
