//! Follows who moves around the character, and asks for the names of strangers.

use vstd::prelude::*;

use crate::bytes::le_bytes;
use crate::client::guid::{packed_guid, parse_packed_guid};
use crate::client::opcodes::{server_opcode_name, Opcode};
use crate::client::packet::{
    is_packet, is_response_with, world_frame, HandlerError, HandlerOutput, PacketDetails,
    PacketDetailsView,
};
use crate::client::player::globals::NameQueryOutcome;
use crate::client::session::HandlerInput;
use crate::errors::FieldError;

verus! {

pub struct Handler;

impl Handler {
    /// What the handler does with the movement.
    pub open spec fn answered(
        before: HandlerInput,
        after: HandlerInput,
        result: Result<Vec<HandlerOutput>, HandlerError>,
    ) -> bool {
        &&& (after == before)
        &&& (match packed_guid(before.data@) {
            None => result == Err::<Vec<HandlerOutput>, HandlerError>(
                HandlerError::Field(FieldError::CannotRead),
            ),
            Some((g, _)) => {
                let guid = g as u64;
                let stranger = guid != before.session.me->Some_0.guid && !before.data_storage.knows(guid);
                &&& result is Ok
                &&& is_response_with(
                    result->Ok_0@[0],
                    server_opcode_name(before.opcode),
                    PacketDetailsView::Guid(guid),
                )
                &&& stranger ==> result->Ok_0@.len() == 2 && is_packet(
                    result->Ok_0@[1],
                    Opcode::CMSG_NAME_QUERY,
                    world_frame(Opcode::CMSG_NAME_QUERY, le_bytes(guid as nat, 8)),
                )
                &&& !stranger ==> result->Ok_0@.len() == 1
            },
        })
    }

    /// The packet starts with the packed guid of the one who moves; a player other than the
    /// character who is not known yet gets a name query.
    pub fn handle(&mut self, input: &mut HandlerInput) -> (result: Result<
        Vec<HandlerOutput>,
        HandlerError,
    >)
        requires
            old(input).session.me is Some,
        ensures
            Self::answered(*old(input), *final(input), result),
    {
        assert(input.data@.skip(0) =~= input.data@);
        let (guid, _) = match parse_packed_guid(input.data.as_slice(), 0) {
            Some(found) => found,
            None => {
                return Err(HandlerError::Field(FieldError::CannotRead));
            },
        };
        let mut response: Vec<HandlerOutput> = Vec::new();
        response.push(
            HandlerOutput::ResponseMessage(
                Opcode::get_server_opcode_name(input.opcode),
                Some(PacketDetails::Guid(guid)),
            ),
        );
        let my_guid = match &input.session.me {
            Some(me) => me.guid,
            None => 0,
        };
        if my_guid != guid && !input.data_storage.contains(guid) {
            let query = NameQueryOutcome { guid };
            response.push(HandlerOutput::Data(query.packet()));
        }
        Ok(response)
    }
}

} // verus!
