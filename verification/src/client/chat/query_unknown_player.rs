//! Asks for the name of a player who speaks in chat and is not known yet.

use vstd::prelude::*;

use crate::bytes::{le_bytes, le_value};
use crate::client::opcodes::{server_opcode_name, Opcode};
use crate::client::packet::{
    is_packet, is_response_with, world_frame, HandlerError, HandlerOutput, PacketDetails,
    PacketDetailsView,
};
use crate::client::player::globals::NameQueryOutcome;
use crate::client::reader::ByteReader;
use crate::client::session::HandlerInput;
use crate::errors::FieldError;

verus! {

/// The sender of a chat message: the 64-bit guid after five bytes.
pub open spec fn chat_sender(d: Seq<u8>) -> u64 {
    le_value(d.subrange(5, 13)) as u64
}

pub struct Handler;

impl Handler {
    /// What the handler does with the message.
    pub open spec fn answered(
        before: HandlerInput,
        after: HandlerInput,
        result: Result<Vec<HandlerOutput>, HandlerError>,
    ) -> bool {
        &&& (after == before)
        &&& (before.data@.len() < 13 ==> result == Err::<Vec<HandlerOutput>, HandlerError>(
            HandlerError::Field(FieldError::CannotRead),
        ))
        &&& (before.data@.len() >= 13 ==> {
            let guid = chat_sender(before.data@);
            &&& result is Ok
            &&& is_response_with(
                result->Ok_0@[0],
                server_opcode_name(before.opcode),
                PacketDetailsView::Guid(guid),
            )
            &&& if before.data_storage.knows(guid) {
                result->Ok_0@.len() == 1
            } else {
                &&& result->Ok_0@.len() == 2
                &&& is_packet(
                    result->Ok_0@[1],
                    Opcode::CMSG_NAME_QUERY,
                    world_frame(Opcode::CMSG_NAME_QUERY, le_bytes(guid as nat, 8)),
                )
            }
        })
    }

    pub fn handle(&mut self, input: &mut HandlerInput) -> (result: Result<
        Vec<HandlerOutput>,
        HandlerError,
    >)
        ensures
            Self::answered(*old(input), *final(input), result),
    {
        if input.data.len() < 13 {
            return Err(HandlerError::Field(FieldError::CannotRead));
        }
        let mut reader = ByteReader::new(input.data.as_slice());
        let _ = reader.skip(5);
        let guid = match reader.read_u64_le() {
            Ok(g) => g,
            Err(e) => {
                return Err(HandlerError::Field(e));
            },
        };
        proof {
            assert(input.data@.skip(0).skip(5).take(8) =~= input.data@.subrange(5, 13));
        }
        let mut response: Vec<HandlerOutput> = Vec::new();
        response.push(
            HandlerOutput::ResponseMessage(
                Opcode::get_server_opcode_name(input.opcode),
                Some(PacketDetails::Guid(guid)),
            ),
        );
        if !input.data_storage.contains(guid) {
            let query = NameQueryOutcome { guid };
            response.push(HandlerOutput::Data(query.packet()));
        }
        Ok(response)
    }
}

} // verus!
