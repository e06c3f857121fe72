//! The world-server part of the login: session, characters, channels and logout.

pub mod auth_challenge;
pub mod join_channels;
pub mod join_trade_channel;
pub mod logout;
pub mod ready_for_account_data_times;
pub mod realm_split;
pub mod request_characters;
pub mod set_in_world;
pub mod types;

pub use types::Realm;

use vstd::prelude::*;

use crate::client::opcodes::Opcode;
use crate::client::packet::HandlerKind;
use crate::client::session::HandlerInput;

verus! {

/// The server has completed the logout.
pub const SMSG_LOGOUT_COMPLETE: u16 = 77;

/// The handlers of a world-server packet of the login phase, by opcode.
pub open spec fn realm_handlers(opcode: u16) -> Seq<HandlerKind> {
    if opcode == Opcode::SMSG_AUTH_CHALLENGE {
        seq![HandlerKind::AuthChallenge]
    } else if opcode == Opcode::SMSG_AUTH_RESPONSE {
        seq![
            HandlerKind::ReadyForAccountDataTimes,
            HandlerKind::RequestCharacters,
            HandlerKind::RealmSplit,
        ]
    } else if opcode == Opcode::SMSG_LOGIN_VERIFY_WORLD {
        seq![HandlerKind::JoinChannels, HandlerKind::SetInWorld]
    } else if opcode == Opcode::SMSG_MOTD {
        seq![HandlerKind::ParseMotd]
    } else if opcode == SMSG_LOGOUT_COMPLETE {
        seq![HandlerKind::Logout]
    } else {
        seq![]
    }
}

/// Routes the login-phase packets of the world server.
pub struct RealmProcessor;

impl RealmProcessor {
    pub fn process_input(input: &mut HandlerInput) -> (handlers: Vec<HandlerKind>)
        ensures
            *final(input) == *old(input),
            handlers@ == realm_handlers(old(input).opcode),
    {
        let opcode = input.opcode;
        let mut handlers: Vec<HandlerKind> = Vec::new();
        if opcode == Opcode::SMSG_AUTH_CHALLENGE {
            handlers.push(HandlerKind::AuthChallenge);
        } else if opcode == Opcode::SMSG_AUTH_RESPONSE {
            handlers.push(HandlerKind::ReadyForAccountDataTimes);
            handlers.push(HandlerKind::RequestCharacters);
            handlers.push(HandlerKind::RealmSplit);
        } else if opcode == Opcode::SMSG_LOGIN_VERIFY_WORLD {
            handlers.push(HandlerKind::JoinChannels);
            handlers.push(HandlerKind::SetInWorld);
        } else if opcode == Opcode::SMSG_MOTD {
            handlers.push(HandlerKind::ParseMotd);
        } else if opcode == SMSG_LOGOUT_COMPLETE {
            handlers.push(HandlerKind::Logout);
        }
        assert(handlers@ =~= realm_handlers(opcode));
        handlers
    }
}

} // verus!
