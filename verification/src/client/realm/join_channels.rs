//! Joins the chat channels once the character is in the world.

use vstd::prelude::*;
use vstd::utf8::encode_utf8;

use crate::client::chat::globals::JoinChannelOutcome;
use crate::client::opcodes::Opcode;
use crate::client::packet::{is_packet, world_frame, HandlerError, HandlerOutput};
use crate::client::session::HandlerInput;

verus! {

pub const COMMON_CHANNEL_ID: u32 = 1;
pub const LFG_CHANNEL_ID: u32 = 26;
pub const TRADE_CHANNEL_ID: u32 = 2;

fn join_packet(channel_id: u32, name: &String) -> (output: HandlerOutput)
    requires
        encode_utf8(name@).len() + 11 <= u16::MAX,
    ensures
        output matches HandlerOutput::Data(p) && p.opcode == Opcode::CMSG_JOIN_CHANNEL
            && p.data@ == world_frame(Opcode::CMSG_JOIN_CHANNEL, join_body(channel_id, name@)),
{
    let join = JoinChannelOutcome::new(channel_id, name.clone());
    HandlerOutput::Data(join.packet())
}

/// The body of a join request for a channel id and name.
pub open spec fn join_body(channel_id: u32, name: Seq<char>) -> Seq<u8> {
    crate::bytes::le_bytes(channel_id as nat, 4) + seq![0u8, 0u8] + encode_utf8(name) + seq![0u8]
}

/// Joins the common, LFG and trade channels; each request carries the common channel's
/// label from the config.
pub struct Handler;

impl Handler {
    /// What the handler sends.
    pub open spec fn answered(
        before: HandlerInput,
        after: HandlerInput,
        result: Result<Vec<HandlerOutput>, HandlerError>,
    ) -> bool {
        &&& (after == before)
        &&& (({
            let label = before.session.config->Some_0.channel_labels.common@;
            if encode_utf8(label).len() + 11 > u16::MAX {
                result == Err::<Vec<HandlerOutput>, HandlerError>(HandlerError::PacketTooLarge)
            } else {
                &&& result is Ok
                &&& result->Ok_0@.len() == 3
                &&& is_packet(
                    result->Ok_0@[0],
                    Opcode::CMSG_JOIN_CHANNEL,
                    world_frame(Opcode::CMSG_JOIN_CHANNEL, join_body(COMMON_CHANNEL_ID, label)),
                )
                &&& is_packet(
                    result->Ok_0@[1],
                    Opcode::CMSG_JOIN_CHANNEL,
                    world_frame(Opcode::CMSG_JOIN_CHANNEL, join_body(LFG_CHANNEL_ID, label)),
                )
                &&& is_packet(
                    result->Ok_0@[2],
                    Opcode::CMSG_JOIN_CHANNEL,
                    world_frame(Opcode::CMSG_JOIN_CHANNEL, join_body(TRADE_CHANNEL_ID, label)),
                )
            }
        }))
    }

    pub fn handle(&mut self, input: &mut HandlerInput) -> (result: Result<
        Vec<HandlerOutput>,
        HandlerError,
    >)
        requires
            old(input).session.config is Some,
        ensures
            Self::answered(*old(input), *final(input), result),
    {
        let label = match &input.session.config {
            Some(config) => config.channel_labels.common.clone(),
            None => String::new(),
        };
        if label.as_str().as_bytes().len() > 65524 {
            return Err(HandlerError::PacketTooLarge);
        }
        let mut response: Vec<HandlerOutput> = Vec::new();
        response.push(join_packet(COMMON_CHANNEL_ID, &label));
        response.push(join_packet(LFG_CHANNEL_ID, &label));
        response.push(join_packet(TRADE_CHANNEL_ID, &label));
        Ok(response)
    }
}

} // verus!
