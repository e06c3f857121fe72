//! Asks how the realm is split once the session is accepted.

use vstd::prelude::*;

use crate::client::opcodes::Opcode;
use crate::client::packet::{is_packet, world_frame, world_packet, HandlerError, HandlerOutput};
use crate::client::session::HandlerInput;

verus! {

/// Sends `CMSG_REALM_SPLIT` with four bytes 0xFF.
pub struct Handler;

impl Handler {
    /// What the handler sends.
    pub open spec fn answered(
        before: HandlerInput,
        after: HandlerInput,
        result: Result<Vec<HandlerOutput>, HandlerError>,
    ) -> bool {
        &&& (after == before)
        &&& (result is Ok)
        &&& (result->Ok_0@.len() == 1)
        &&& (is_packet(
            result->Ok_0@[0],
            Opcode::CMSG_REALM_SPLIT,
            world_frame(Opcode::CMSG_REALM_SPLIT, seq![0xFFu8, 0xFFu8, 0xFFu8, 0xFFu8]),
        ))
    }

    pub fn handle(&mut self, input: &mut HandlerInput) -> (result: Result<
        Vec<HandlerOutput>,
        HandlerError,
    >)
        ensures
            Self::answered(*old(input), *final(input), result),
    {
        let body: [u8; 4] = [0xFFu8; 4];
        assert(body@ =~= seq![0xFFu8, 0xFFu8, 0xFFu8, 0xFFu8]);
        let mut response: Vec<HandlerOutput> = Vec::new();
        response.push(HandlerOutput::Data(world_packet(Opcode::CMSG_REALM_SPLIT, body.as_slice())));
        Ok(response)
    }
}

} // verus!
