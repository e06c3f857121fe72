//! Reads the realm list and picks the realm to play on.

use vstd::prelude::*;
use vstd::string::StringExecFns;

use crate::client::opcodes::{server_opcode_name, Opcode};
use crate::client::packet::{
    is_debug_message, is_response_with, HandlerError, HandlerOutput, PacketDetails, PacketDetailsView,
};
use crate::client::reader::ByteReader;
use crate::client::realm::types::{copy_realms, read_realms, realm_list, realm_views, Realm, RealmView};
use crate::client::session::HandlerInput;
use crate::errors::{FieldError, RealmListError};
use crate::text::{pattern_compiles, pattern_matches, regex_compiles, regex_is_match};

verus! {

/// The realms of a `REALM_LIST` answer, which starts with six unused bytes.
pub open spec fn realm_list_answer(d: Seq<u8>) -> Option<Seq<RealmView>> {
    if d.len() < 6 {
        None
    } else {
        realm_list(d.skip(6))
    }
}

/// The first realm at or after `start` whose name the pattern matches.
pub open spec fn first_realm_match(pattern: Seq<char>, realms: Seq<RealmView>, start: int) -> Option<int>
    decreases realms.len() - start,
{
    if start < 0 || start >= realms.len() {
        None
    } else if regex_is_match(pattern, realms[start].name) {
        Some(start)
    } else {
        first_realm_match(pattern, realms, start + 1)
    }
}

proof fn lemma_first_realm_match(pattern: Seq<char>, realms: Seq<RealmView>, start: int)
    requires
        0 <= start <= realms.len(),
    ensures
        first_realm_match(pattern, realms, start) matches Some(i) ==> start <= i < realms.len()
            && regex_is_match(pattern, realms[i].name),
    decreases realms.len() - start,
{
    if start < realms.len() && !regex_is_match(pattern, realms[start].name) {
        lemma_first_realm_match(pattern, realms, start + 1);
    }
}

/// The index of the first realm whose name the pattern matches.
pub fn select_realm(realms: &Vec<Realm>, pattern: &str) -> (found: Option<usize>)
    requires
        regex_compiles(pattern@),
    ensures
        match found {
            None => first_realm_match(pattern@, realm_views(realms@), 0) is None,
            Some(i) => first_realm_match(pattern@, realm_views(realms@), 0) == Some(i as int),
        },
{
    let ghost views = realm_views(realms@);
    let mut i: usize = 0;
    while i < realms.len()
        invariant
            i <= realms@.len(),
            views == realm_views(realms@),
            regex_compiles(pattern@),
            first_realm_match(pattern@, views, 0) == first_realm_match(pattern@, views, i as int),
        decreases realms@.len() - i,
    {
        if pattern_matches(pattern, realms[i].name.as_str()) {
            return Some(i);
        }
        i = i + 1;
    }
    None
}

/// Reads the realms of the answer and either hands the list to the user (no pattern in
/// the config) or selects the first realm whose name the pattern matches.
pub struct Handler;

impl Handler {
    /// What the handler does with the answer.
    pub open spec fn answered(
        before: HandlerInput,
        after: HandlerInput,
        result: Result<Vec<HandlerOutput>, HandlerError>,
    ) -> bool {
                let d = before.data@;
                match realm_list_answer(d) {
                    None => result == Err::<Vec<HandlerOutput>, HandlerError>(
                        HandlerError::Field(FieldError::CannotRead),
                    ) && after == before,
                    Some(views) => match before.session.config {
                        None => result == Err::<Vec<HandlerOutput>, HandlerError>(
                            HandlerError::ConfigNotSet,
                        ) && after == before,
                        Some(c) => {
                            let pattern = c.connection_data.autoselect_realm_name@;
                            if pattern.len() == 0 {
                                &&& after == before
                                &&& result is Ok
                                &&& result->Ok_0@.len() == 3
                                &&& is_response_with(
                                    result->Ok_0@[0],
                                    server_opcode_name(before.opcode),
                                    PacketDetailsView::Realms(views),
                                )
                                &&& result->Ok_0@[1] matches HandlerOutput::TransferRealmsList(rs)
                                    && realm_views(rs@) == views
                                &&& result->Ok_0@[2] is Freeze
                            } else {
                                match first_realm_match(pattern, views, 0) {
                                    None => result == Err::<Vec<HandlerOutput>, HandlerError>(
                                        HandlerError::RealmList(RealmListError::NotFound),
                                    ) && after == before,
                                    Some(i) => {
                                        &&& result is Ok
                                        &&& result->Ok_0@.len() == 2
                                        &&& is_response_with(
                                            result->Ok_0@[0],
                                            server_opcode_name(before.opcode),
                                            PacketDetailsView::Realms(views),
                                        )
                                        &&& is_debug_message(
                                            result->Ok_0@[1],
                                            "Selected \""@ + views[i].name + "\" Realm"@,
                                            None,
                                        )
                                        &&& after.session.selected_realm matches Some(r)
                                            && r@ == views[i]
                                        &&& after.session.config == before.session.config
                                        &&& after.session.srp == before.session.srp
                                        &&& after.session.me == before.session.me
                                        &&& after.session.spells == before.session.spells
                                        &&& after.session.is_casting == before.session.is_casting
                                        &&& after.session.in_world == before.session.in_world
                                        &&& after.data == before.data
                                        &&& after.opcode == before.opcode
                                        &&& after.data_storage == before.data_storage
                                    },
                                }
                            }
                        },
                    },
                }
    }

    pub fn handle(&mut self, input: &mut HandlerInput) -> (result: Result<
        Vec<HandlerOutput>,
        HandlerError,
    >)
        requires
            old(input).session.config matches Some(c) ==> (
                c.connection_data.autoselect_realm_name@.len() > 0 ==> regex_compiles(
                    c.connection_data.autoselect_realm_name@,
                )),
        ensures
            Self::answered(*old(input), *final(input), result),
    {
        let ghost d = input.data@;
        if input.data.len() < 6 {
            return Err(HandlerError::Field(FieldError::CannotRead));
        }
        let mut reader = ByteReader::new(input.data.as_slice());
        let _ = reader.skip(6);
        assert(d.skip(0).skip(6) =~= d.skip(6));
        let mut realms = match read_realms(&mut reader) {
            Ok(r) => r,
            Err(_) => {
                return Err(HandlerError::Field(FieldError::CannotRead));
            },
        };
        let ghost views = realm_views(realms@);
        let pattern = match &input.session.config {
            Some(config) => config.connection_data.autoselect_realm_name.clone(),
            None => {
                return Err(HandlerError::ConfigNotSet);
            },
        };
        let mut response: Vec<HandlerOutput> = Vec::new();
        response.push(
            HandlerOutput::ResponseMessage(
                Opcode::get_server_opcode_name(input.opcode),
                Some(PacketDetails::Realms(copy_realms(&realms))),
            ),
        );
        if pattern.as_str().unicode_len() == 0 {
            response.push(HandlerOutput::TransferRealmsList(realms));
            response.push(HandlerOutput::Freeze);
            return Ok(response);
        }
        match select_realm(&realms, pattern.as_str()) {
            Some(i) => {
                proof {
                    lemma_first_realm_match(pattern@, views, 0);
                }
                let realm = realms.remove(i);
                assert(realm@ == views[i as int]);
                let mut message = String::from_str("Selected \"");
                message.append(realm.name.as_str());
                message.append("\" Realm");
                response.push(HandlerOutput::DebugMessage(message, None));
                input.session.selected_realm = Some(realm);
                Ok(response)
            },
            None => Err(HandlerError::RealmList(RealmListError::NotFound)),
        }
    }
}

impl Handler {
    /// Runs the handler when the realm pattern of the config compiles; gives `None`, and
    /// changes nothing, when it does not.
    pub fn try_handle(&mut self, input: &mut HandlerInput) -> (result: Option<
        Result<Vec<HandlerOutput>, HandlerError>,
    >)
        ensures
            match old(input).session.config {
                Some(c) => {
                    let pattern = c.connection_data.autoselect_realm_name@;
                    if pattern.len() > 0 && !regex_compiles(pattern) {
                        result is None && *final(input) == *old(input)
                    } else {
                        result matches Some(r) && Self::answered(*old(input), *final(input), r)
                    }
                },
                None => result matches Some(r) && Self::answered(*old(input), *final(input), r),
            },
    {
        let compiles = match &input.session.config {
            Some(c) => {
                let pattern = c.connection_data.autoselect_realm_name.as_str();
                pattern.unicode_len() == 0 || pattern_compiles(pattern)
            },
            None => true,
        };
        if !compiles {
            return None;
        }
        Some(self.handle(input))
    }
}

} // verus!
