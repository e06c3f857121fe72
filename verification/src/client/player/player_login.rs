//! Enters the world with the chosen character.

use vstd::prelude::*;

use crate::bytes::{le_bytes, u64_le};
use crate::client::opcodes::Opcode;
use crate::client::packet::{is_packet, world_frame, world_packet, HandlerError, HandlerOutput};
use crate::client::session::HandlerInput;
use crate::errors::CharacterListError;

verus! {

pub struct Handler;

impl Handler {
    /// What the handler sends.
    pub open spec fn answered(
        before: HandlerInput,
        after: HandlerInput,
        result: Result<Vec<HandlerOutput>, HandlerError>,
    ) -> bool {
        &&& (after == before)
        &&& (match before.session.config {
            None => result == Err::<Vec<HandlerOutput>, HandlerError>(HandlerError::ConfigNotSet),
            Some(config) => match before.session.me {
                None => if config.common.auto_create_character_for_new_account {
                    result is Ok && result->Ok_0@.len() == 0
                } else {
                    result == Err::<Vec<HandlerOutput>, HandlerError>(
                        HandlerError::CharacterList(CharacterListError::Empty),
                    )
                },
                Some(me) => {
                    &&& result is Ok
                    &&& result->Ok_0@.len() == 1
                    &&& is_packet(
                        result->Ok_0@[0],
                        Opcode::CMSG_PLAYER_LOGIN,
                        world_frame(Opcode::CMSG_PLAYER_LOGIN, le_bytes(me.guid as nat, 8)),
                    )
                },
            },
        })
    }

    /// Sends `CMSG_PLAYER_LOGIN` with the guid of the chosen character. Without a chosen
    /// character, nothing happens when a character is being created for the account, and
    /// the list was empty otherwise.
    pub fn handle(&mut self, input: &mut HandlerInput) -> (result: Result<
        Vec<HandlerOutput>,
        HandlerError,
    >)
        ensures
            Self::answered(*old(input), *final(input), result),
    {
        let auto_create = match &input.session.config {
            Some(config) => config.common.auto_create_character_for_new_account,
            None => {
                return Err(HandlerError::ConfigNotSet);
            },
        };
        let mut response: Vec<HandlerOutput> = Vec::new();
        match &input.session.me {
            None => {
                if auto_create {
                    Ok(response)
                } else {
                    Err(HandlerError::CharacterList(CharacterListError::Empty))
                }
            },
            Some(me) => {
                let body = u64_le(me.guid);
                proof {
                    crate::bytes::lemma_le_bytes_len(me.guid as nat, 8);
                }
                response.push(HandlerOutput::Data(world_packet(Opcode::CMSG_PLAYER_LOGIN, body.as_slice())));
                Ok(response)
            },
        }
    }
}

} // verus!
