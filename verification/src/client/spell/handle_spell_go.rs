//! Notes whether the character is the one casting a spell.

use vstd::prelude::*;

use crate::client::guid::{packed_guid, parse_packed_guid};
use crate::client::opcodes::{server_opcode_name, Opcode};
use crate::client::packet::{
    is_response_with, HandlerError, HandlerOutput, PacketDetails, PacketDetailsView,
};
use crate::client::session::{HandlerInput, Session};
use crate::errors::FieldError;

verus! {

/// The caster of a cast: the second packed guid, after the item's.
pub open spec fn spell_caster(d: Seq<u8>) -> Option<u64> {
    match packed_guid(d) {
        None => None,
        Some((_, n)) => match packed_guid(d.skip(n as int)) {
            None => None,
            Some((c, _)) => Some(c as u64),
        },
    }
}

pub struct Handler;

impl Handler {
    /// What the handler does with the cast.
    pub open spec fn answered(
        before: HandlerInput,
        after: HandlerInput,
        result: Result<Vec<HandlerOutput>, HandlerError>,
    ) -> bool {
        &&& (match spell_caster(before.data@) {
            None => result == Err::<Vec<HandlerOutput>, HandlerError>(
                HandlerError::Field(FieldError::CannotRead),
            ) && after == before,
            Some(caster) => {
                &&& result is Ok
                &&& result->Ok_0@.len() == 1
                &&& is_response_with(
                    result->Ok_0@[0],
                    server_opcode_name(before.opcode),
                    PacketDetailsView::SpellGo {
                        item: packed_guid(before.data@)->Some_0.0 as u64,
                        caster,
                    },
                )
                &&& match before.session.me {
                    None => after == before,
                    Some(me) => after == (HandlerInput {
                        session: Session { is_casting: me.guid == caster, ..before.session },
                        ..before
                    }),
                }
            },
        })
    }

    pub fn handle(&mut self, input: &mut HandlerInput) -> (result: Result<
        Vec<HandlerOutput>,
        HandlerError,
    >)
        ensures
            Self::answered(*old(input), *final(input), result),
    {
        let d = input.data.as_slice();
        assert(d@.skip(0) =~= d@);
        let (item, after_item) = match parse_packed_guid(d, 0) {
            Some(found) => found,
            None => {
                return Err(HandlerError::Field(FieldError::CannotRead));
            },
        };
        let (caster, _) = match parse_packed_guid(d, after_item) {
            Some(found) => found,
            None => {
                return Err(HandlerError::Field(FieldError::CannotRead));
            },
        };
        let mut response: Vec<HandlerOutput> = Vec::new();
        response.push(
            HandlerOutput::ResponseMessage(
                Opcode::get_server_opcode_name(input.opcode),
                Some(PacketDetails::SpellGo { item, caster }),
            ),
        );
        let my_guid: Option<u64> = match &input.session.me {
            Some(me) => Some(me.guid),
            None => None,
        };
        if let Some(g) = my_guid {
            input.session.is_casting = g == caster;
        }
        Ok(response)
    }
}

} // verus!
