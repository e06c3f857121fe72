//! Asks the login server for the realm list.

use vstd::prelude::*;

use crate::client::opcodes::Opcode;
use crate::client::packet::{is_packet, login_frame, login_packet, HandlerError, HandlerOutput};
use crate::client::session::HandlerInput;

verus! {

/// Sends `REALM_LIST` with its four zero bytes once the proof is accepted.
pub struct Handler;

impl Handler {
    /// What the handler sends.
    pub open spec fn answered(
        before: HandlerInput,
        after: HandlerInput,
        result: Result<Vec<HandlerOutput>, HandlerError>,
    ) -> bool {
        &&& (after == before)
        &&& (result is Ok)
        &&& (result->Ok_0@.len() == 1)
        &&& (is_packet(
            result->Ok_0@[0],
            Opcode::REALM_LIST as u32,
            login_frame(Opcode::REALM_LIST, seq![0u8, 0u8, 0u8, 0u8]),
        ))
    }

    pub fn handle(&mut self, input: &mut HandlerInput) -> (result: Result<
        Vec<HandlerOutput>,
        HandlerError,
    >)
        ensures
            Self::answered(*old(input), *final(input), result),
    {
        let body: [u8; 4] = [0u8; 4];
        let packet = login_packet(Opcode::REALM_LIST, body.as_slice());
        assert(body@ =~= seq![0u8, 0u8, 0u8, 0u8]);
        let mut response: Vec<HandlerOutput> = Vec::new();
        response.push(HandlerOutput::Data(packet));
        Ok(response)
    }
}

} // verus!
