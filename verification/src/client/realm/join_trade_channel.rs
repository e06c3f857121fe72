//! Joins the trade channel.

use vstd::prelude::*;
use vstd::utf8::encode_utf8;

use crate::client::opcodes::Opcode;
use crate::client::packet::{is_packet, world_frame, HandlerError, HandlerOutput};
use crate::client::realm::join_channels::{join_body, TRADE_CHANNEL_ID};
use crate::client::chat::globals::JoinChannelOutcome;
use crate::client::session::HandlerInput;

verus! {

/// Joins the trade channel under the trade label of the config.
pub struct Handler;

impl Handler {
    /// What the handler sends.
    pub open spec fn answered(
        before: HandlerInput,
        after: HandlerInput,
        result: Result<Vec<HandlerOutput>, HandlerError>,
    ) -> bool {
        &&& (after == before)
        &&& (({
            let label = before.session.config->Some_0.channel_labels.trade@;
            if encode_utf8(label).len() + 11 > u16::MAX {
                result == Err::<Vec<HandlerOutput>, HandlerError>(HandlerError::PacketTooLarge)
            } else {
                &&& result is Ok
                &&& result->Ok_0@.len() == 1
                &&& is_packet(
                    result->Ok_0@[0],
                    Opcode::CMSG_JOIN_CHANNEL,
                    world_frame(Opcode::CMSG_JOIN_CHANNEL, join_body(TRADE_CHANNEL_ID, label)),
                )
            }
        }))
    }

    pub fn handle(&mut self, input: &mut HandlerInput) -> (result: Result<
        Vec<HandlerOutput>,
        HandlerError,
    >)
        requires
            old(input).session.config is Some,
        ensures
            Self::answered(*old(input), *final(input), result),
    {
        let label = match &input.session.config {
            Some(config) => config.channel_labels.trade.clone(),
            None => String::new(),
        };
        if label.as_str().as_bytes().len() > 65524 {
            return Err(HandlerError::PacketTooLarge);
        }
        let join = JoinChannelOutcome::new(TRADE_CHANNEL_ID, label);
        let mut response: Vec<HandlerOutput> = Vec::new();
        response.push(HandlerOutput::Data(join.packet()));
        Ok(response)
    }
}

} // verus!
