//! Records the name, race, class and gender the server tells of a player.

use vstd::prelude::*;

use crate::client::guid::{packed_guid, parse_packed_guid};
use crate::client::opcodes::{server_opcode_name, Opcode};
use crate::client::packet::{
    is_error_message, is_response_with, HandlerError, HandlerOutput, PacketDetails,
    PacketDetailsView,
};
use crate::client::reader::{until_nul, ByteReader};
use crate::client::realm::types::strip_nul;
use crate::client::session::{player_map, upserted, HandlerInput};
use crate::errors::FieldError;
use crate::text::{lossy_text, text_of};

verus! {

/// What a name query answer tells: the guid, then (when the player exists) the name,
/// race, gender and class.
pub struct NameAnswer {
    pub guid: u64,
    pub exists: bool,
    pub name: Seq<char>,
    pub race: u8,
    pub gender: u8,
    pub class: u8,
}

/// The answer is a packed guid, a byte that is 1 when no such player exists, and then
/// the name and the realm (each up to a zero byte), race, gender and class.
pub open spec fn name_answer(d: Seq<u8>) -> Option<NameAnswer> {
    match packed_guid(d) {
        None => None,
        Some((g, n)) => if d.len() <= n {
            None
        } else if d[n as int] == 1 {
            Some(NameAnswer { guid: g as u64, exists: false, name: Seq::empty(), race: 0, gender: 0, class: 0 })
        } else {
            let r = d.skip(n + 1int);
            let name_raw = until_nul(r);
            let r2 = r.skip(name_raw.len() as int);
            let realm_raw = until_nul(r2);
            let r3 = r2.skip(realm_raw.len() as int);
            if r3.len() < 3 {
                None
            } else {
                Some(
                    NameAnswer {
                        guid: g as u64,
                        exists: true,
                        name: text_of(strip_nul(name_raw)),
                        race: r3[0],
                        gender: r3[1],
                        class: r3[2],
                    },
                )
            }
        },
    }
}

fn strip_terminator_bytes(raw: &Vec<u8>) -> (bytes: Vec<u8>)
    ensures
        bytes@ == strip_nul(raw@),
{
    let mut bytes = raw.clone();
    if bytes.len() > 0 && bytes[bytes.len() - 1] == 0 {
        bytes.pop();
    }
    assert(bytes@ =~= strip_nul(raw@));
    bytes
}

pub struct Handler;

impl Handler {
    /// What the handler does with the answer.
    pub open spec fn answered(
        before: HandlerInput,
        after: HandlerInput,
        result: Result<Vec<HandlerOutput>, HandlerError>,
    ) -> bool {
        &&& (match name_answer(before.data@) {
            None => result == Err::<Vec<HandlerOutput>, HandlerError>(
                HandlerError::Field(FieldError::CannotRead),
            ) && after == before,
            Some(a) => if !a.exists {
                &&& after == before
                &&& result is Ok
                &&& result->Ok_0@.len() == 1
                &&& is_error_message(result->Ok_0@[0], "Player not exists"@)
            } else {
                &&& result is Ok
                &&& result->Ok_0@.len() == 1
                &&& is_response_with(result->Ok_0@[0], server_opcode_name(before.opcode), PacketDetailsView::Name { guid: a.guid, name: a.name, race: a.race, gender: a.gender, class: a.class })
                &&& after.session == before.session
                &&& after.data == before.data
                &&& after.opcode == before.opcode
                &&& if a.guid == before.session.me->Some_0.guid {
                    after.data_storage == before.data_storage
                } else {
                    player_map(after.data_storage.players@) == upserted(
                        player_map(before.data_storage.players@),
                        a.guid,
                        a.name,
                        a.race,
                        a.class,
                        a.gender,
                    )
                }
            },
        })
    }

    /// A missing player gives an error message. Otherwise another player's entry is
    /// updated, or added at level 1; the answer about the character itself changes nothing.
    pub fn handle(&mut self, input: &mut HandlerInput) -> (result: Result<
        Vec<HandlerOutput>,
        HandlerError,
    >)
        requires
            old(input).session.me is Some,
        ensures
            Self::answered(*old(input), *final(input), result),
            old(input).wf() ==> final(input).wf(),
    {
        let d = input.data.as_slice();
        let (guid, after_guid) = match parse_packed_guid(d, 0) {
            Some(found) => found,
            None => {
                assert(d@.skip(0) =~= d@);
                return Err(HandlerError::Field(FieldError::CannotRead));
            },
        };
        assert(d@.skip(0) =~= d@);
        if after_guid >= d.len() {
            return Err(HandlerError::Field(FieldError::CannotRead));
        }
        let mut response: Vec<HandlerOutput> = Vec::new();
        if d[after_guid] == 1 {
            response.push(HandlerOutput::ErrorMessage("Player not exists".to_string(), None));
            return Ok(response);
        }
        let mut reader = ByteReader::new(d);
        let _ = reader.skip(after_guid + 1);
        assert(d@.skip(0).skip(after_guid + 1) =~= d@.skip(after_guid + 1));
        let name_raw = reader.read_until_nul();
        let _realm_raw = reader.read_until_nul();
        let race = match reader.read_u8() {
            Ok(v) => v,
            Err(_) => {
                return Err(HandlerError::Field(FieldError::CannotRead));
            },
        };
        let gender = match reader.read_u8() {
            Ok(v) => v,
            Err(_) => {
                return Err(HandlerError::Field(FieldError::CannotRead));
            },
        };
        let class = match reader.read_u8() {
            Ok(v) => v,
            Err(_) => {
                return Err(HandlerError::Field(FieldError::CannotRead));
            },
        };
        let name_bytes = strip_terminator_bytes(&name_raw);
        let name = lossy_text(name_bytes.as_slice());
        response.push(
            HandlerOutput::ResponseMessage(
                Opcode::get_server_opcode_name(input.opcode),
                Some(PacketDetails::Name { guid, name: name.clone(), race, gender, class }),
            ),
        );
        let my_guid = match &input.session.me {
            Some(me) => me.guid,
            None => 0,
        };
        if my_guid != guid {
            input.data_storage.upsert(guid, name, race, class, gender);
        }
        Ok(response)
    }
}

} // verus!
