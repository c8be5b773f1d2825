//! The behavior surface: the callbacks a game implementation supplies. The
//! engine invokes them as decoded frames arrive and once per frame tick.

use vstd::prelude::*;

use crate::protocol::protocol_message::{
    ChangeRoom, Character, Fight, Loot, Message, PvpFight, Start,
};
use crate::server::context::{ServerAccess, ServerEventContext};

verus! {

pub type LurkServerError = Result<(), ()>;

/// What a game supplies: one handler per server-recipient message kind, the
/// lifecycle handlers, and a per-frame update. Handlers enqueue outbound
/// traffic through the given context and must not block.
pub trait ServerCallbacks {
    fn on_connect(&mut self, context: &mut ServerEventContext<'_>) -> LurkServerError;

    fn on_disconnect(&mut self, client_id: &u128);

    fn on_message(
        &mut self,
        context: &mut ServerEventContext<'_>,
        message: &Message,
    ) -> LurkServerError;

    fn on_change_room(
        &mut self,
        context: &mut ServerEventContext<'_>,
        change_room: &ChangeRoom,
    ) -> LurkServerError;

    fn on_fight(&mut self, context: &mut ServerEventContext<'_>, fight: &Fight) -> LurkServerError;

    fn on_pvp_fight(
        &mut self,
        context: &mut ServerEventContext<'_>,
        pvp_fight: &PvpFight,
    ) -> LurkServerError;

    fn on_loot(&mut self, context: &mut ServerEventContext<'_>, loot: &Loot) -> LurkServerError;

    fn on_start(&mut self, context: &mut ServerEventContext<'_>, start: &Start) -> LurkServerError;

    fn on_character(
        &mut self,
        context: &mut ServerEventContext<'_>,
        character: &Character,
    ) -> LurkServerError;

    fn on_leave(&mut self, client_id: &u128) -> LurkServerError;

    fn update(&mut self, update_context: &mut ServerAccess<'_>);
}

} // verus!
