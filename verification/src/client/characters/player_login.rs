//! Enters the world with the chosen character; an empty list is an error.

use vstd::prelude::*;

use crate::bytes::{le_bytes, u64_le};
use crate::client::opcodes::Opcode;
use crate::client::packet::{is_packet, world_frame, world_packet, HandlerError, HandlerOutput};
use crate::client::session::HandlerInput;
use crate::errors::CharacterListError;

verus! {

pub struct Handler;

impl Handler {
    /// What the handler sends.
    pub open spec fn answered(
        before: HandlerInput,
        after: HandlerInput,
        result: Result<Vec<HandlerOutput>, HandlerError>,
    ) -> bool {
        &&& (after == before)
        &&& (match before.session.me {
            None => result == Err::<Vec<HandlerOutput>, HandlerError>(
                HandlerError::CharacterList(CharacterListError::Empty),
            ),
            Some(me) => {
                &&& result is Ok
                &&& result->Ok_0@.len() == 1
                &&& is_packet(
                    result->Ok_0@[0],
                    Opcode::CMSG_PLAYER_LOGIN,
                    world_frame(Opcode::CMSG_PLAYER_LOGIN, le_bytes(me.guid as nat, 8)),
                )
            },
        })
    }

    /// Sends `CMSG_PLAYER_LOGIN` with the guid of the chosen character; without one the
    /// character list was empty.
    pub fn handle(&mut self, input: &mut HandlerInput) -> (result: Result<
        Vec<HandlerOutput>,
        HandlerError,
    >)
        ensures
            Self::answered(*old(input), *final(input), result),
    {
        match &input.session.me {
            None => Err(HandlerError::CharacterList(CharacterListError::Empty)),
            Some(me) => {
                let body = u64_le(me.guid);
                proof {
                    crate::bytes::lemma_le_bytes_len(me.guid as nat, 8);
                }
                let mut response: Vec<HandlerOutput> = Vec::new();
                response.push(HandlerOutput::Data(world_packet(Opcode::CMSG_PLAYER_LOGIN, body.as_slice())));
                Ok(response)
            },
        }
    }
}

} // verus!
