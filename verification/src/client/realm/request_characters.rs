//! Asks for the character list once the session is accepted.

use vstd::prelude::*;

use crate::client::opcodes::Opcode;
use crate::client::packet::{is_packet, world_frame, world_packet, HandlerError, HandlerOutput};
use crate::client::session::HandlerInput;

verus! {

/// Sends `CMSG_CHAR_ENUM` with an empty body.
pub struct Handler;

impl Handler {
    /// What the handler sends.
    pub open spec fn answered(
        before: HandlerInput,
        after: HandlerInput,
        result: Result<Vec<HandlerOutput>, HandlerError>,
    ) -> bool {
        &&& (after == before)
        &&& (result is Ok)
        &&& (result->Ok_0@.len() == 1)
        &&& (is_packet(
            result->Ok_0@[0],
            Opcode::CMSG_CHAR_ENUM,
            world_frame(Opcode::CMSG_CHAR_ENUM, Seq::empty()),
        ))
    }

    pub fn handle(&mut self, input: &mut HandlerInput) -> (result: Result<
        Vec<HandlerOutput>,
        HandlerError,
    >)
        ensures
            Self::answered(*old(input), *final(input), result),
    {
        let body: Vec<u8> = Vec::new();
        let mut response: Vec<HandlerOutput> = Vec::new();
        response.push(HandlerOutput::Data(world_packet(Opcode::CMSG_CHAR_ENUM, body.as_slice())));
        Ok(response)
    }
}

} // verus!
