//! Runs a packet handler by its kind, when the library holds its code and what it relies
//! on in the session is there.

use vstd::prelude::*;

use crate::bytes::{any_nonzero, le_value};
use crate::client::auth::login_proof::{challenge_fits, challenge_n, LoginChallengeResponse};
use crate::client::auth::{
    check_proof_code, get_realmlist, login_proof, request_realmlist, validate_proof,
};
use crate::client::chat::{log_chat_message, query_unknown_player};
use crate::client::movement::detect_motion;
use crate::client::packet::{HandlerError, HandlerKind, HandlerOutput};
use crate::client::player::{get_characters_list, handle_name_query_response, player_login};
use crate::client::realm::{
    auth_challenge, join_channels, logout, ready_for_account_data_times, realm_split,
    request_characters, set_in_world,
};
use crate::client::session::HandlerInput;
use crate::client::spell::handle_spell_go;
use crate::text::{pattern_compiles, regex_compiles};

verus! {

/// The handler's code is in the library and what it relies on is in the input: the
/// server's modulus is not zero, the handshake is under way, the realm and the character
/// are chosen, the patterns of the config compile.
pub open spec fn handler_ready(kind: HandlerKind, input: HandlerInput) -> bool {
    match kind {
        HandlerKind::LoginProof => challenge_fits(input.data@) ==> le_value(
            challenge_n(input.data@),
        ) > 0,
        HandlerKind::ValidateProof => input.session.srp matches Some(s) && s.client_proof() is Some
            && s.public_ephemeral_bytes().len() == 32,
        HandlerKind::GetRealmlist => input.session.config matches Some(c) ==> (
        c.connection_data.autoselect_realm_name@.len() > 0 ==> regex_compiles(
            c.connection_data.autoselect_realm_name@,
        )),
        HandlerKind::AuthChallenge => {
            &&& input.session.srp is Some
            &&& input.session.selected_realm is Some
            &&& input.session.config matches Some(c) ==> c.addons@.len() <= u32::MAX
        },
        HandlerKind::JoinChannels => input.session.config is Some,
        HandlerKind::DetectMotion | HandlerKind::HandleNameQueryResponse => input.session.me is Some,
        HandlerKind::GetCharactersList => input.session.config matches Some(c) ==> (
        c.connection_data.autoselect_character_name@.len() > 0 ==> regex_compiles(
            c.connection_data.autoselect_character_name@,
        )),
        HandlerKind::ConnectToRealm | HandlerKind::ParseMotd | HandlerKind::HandleUpdateData
        | HandlerKind::InitWorldStates | HandlerKind::CheckCharacterCreateStatus
        | HandlerKind::HandleInitialSpells | HandlerKind::WardenSendData => false,
        _ => true,
    }
}

/// What running the handler of this kind did.
pub open spec fn handled(
    kind: HandlerKind,
    before: HandlerInput,
    after: HandlerInput,
    result: Result<Vec<HandlerOutput>, HandlerError>,
) -> bool {
    match kind {
        HandlerKind::CheckProofCode => check_proof_code::Handler::answered(before, after, result),
        HandlerKind::LoginProof => exists|secret: Seq<u8>|
            secret.len() == 19 && #[trigger] login_proof::Handler::answered_with(
                before,
                after,
                result,
                secret,
            ),
        HandlerKind::ValidateProof => validate_proof::Handler::answered(before, after, result),
        HandlerKind::RequestRealmlist => request_realmlist::Handler::answered(before, after, result),
        HandlerKind::GetRealmlist => get_realmlist::Handler::answered(before, after, result),
        HandlerKind::AuthChallenge => exists|seed: Seq<u8>|
            seed.len() == 4 && #[trigger] auth_challenge::Handler::answered(
                before,
                after,
                result,
                seed,
            ),
        HandlerKind::ReadyForAccountDataTimes => ready_for_account_data_times::Handler::answered(
            before,
            after,
            result,
        ),
        HandlerKind::RequestCharacters => request_characters::Handler::answered(before, after, result),
        HandlerKind::RealmSplit => realm_split::Handler::answered(before, after, result),
        HandlerKind::JoinChannels => join_channels::Handler::answered(before, after, result),
        HandlerKind::SetInWorld => set_in_world::Handler::answered(before, after, result),
        HandlerKind::Logout => logout::Handler::answered(before, after, result),
        HandlerKind::QueryUnknownPlayer => query_unknown_player::Handler::answered(before, after, result),
        HandlerKind::LogChatMessage => log_chat_message::Handler::answered(before, after, result),
        HandlerKind::DetectMotion => detect_motion::Handler::answered(before, after, result),
        HandlerKind::HandleNameQueryResponse => handle_name_query_response::Handler::answered(
            before,
            after,
            result,
        ),
        HandlerKind::PlayerLogin => player_login::Handler::answered(before, after, result),
        HandlerKind::GetCharactersList => get_characters_list::Handler::answered_packet(
            before,
            after,
            result,
        ),
        HandlerKind::HandleSpellGo => handle_spell_go::Handler::answered(before, after, result),
        _ => false,
    }
}

/// Whether the handler of this kind can run on the input.
pub fn is_ready(kind: HandlerKind, input: &HandlerInput) -> (ready: bool)
    requires
        input.wf(),
    ensures
        ready == handler_ready(kind, *input),
{
    match kind {
        HandlerKind::LoginProof => match LoginChallengeResponse::from_bytes(input.data.as_slice()) {
            Ok(challenge) => any_nonzero(challenge.n.as_slice()),
            Err(_) => true,
        },
        HandlerKind::ValidateProof => match &input.session.srp {
            Some(srp) => srp.has_client_proof() && srp.public_ephemeral_is_full(),
            None => false,
        },
        HandlerKind::GetRealmlist => match &input.session.config {
            Some(c) => {
                let pattern = c.connection_data.autoselect_realm_name.as_str();
                pattern.unicode_len() == 0 || pattern_compiles(pattern)
            },
            None => true,
        },
        HandlerKind::AuthChallenge => {
            input.session.srp.is_some() && input.session.selected_realm.is_some() && match &input.session.config {
                Some(c) => c.addons.len() as u64 <= 4294967295u64,
                None => true,
            }
        },
        HandlerKind::JoinChannels => input.session.config.is_some(),
        HandlerKind::DetectMotion | HandlerKind::HandleNameQueryResponse => input.session.me.is_some(),
        HandlerKind::GetCharactersList => match &input.session.config {
            Some(c) => {
                let pattern = c.connection_data.autoselect_character_name.as_str();
                pattern.unicode_len() == 0 || pattern_compiles(pattern)
            },
            None => true,
        },
        HandlerKind::ConnectToRealm | HandlerKind::ParseMotd | HandlerKind::HandleUpdateData
        | HandlerKind::InitWorldStates | HandlerKind::CheckCharacterCreateStatus
        | HandlerKind::HandleInitialSpells | HandlerKind::WardenSendData => false,
        _ => true,
    }
}

/// Runs the handler of this kind; `None`, with the input unchanged, when it cannot run.
pub fn run_handler(kind: HandlerKind, input: &mut HandlerInput) -> (result: Option<
    Result<Vec<HandlerOutput>, HandlerError>,
>)
    requires
        old(input).wf(),
    ensures
        final(input).wf(),
        result is Some <==> handler_ready(kind, *old(input)),
        result is None ==> *final(input) == *old(input),
        result matches Some(r) ==> handled(kind, *old(input), *final(input), r),
{
    if !is_ready(kind, input) {
        return None;
    }
    let result = match kind {
        HandlerKind::CheckProofCode => check_proof_code::Handler.handle(input),
        HandlerKind::LoginProof => login_proof::Handler.handle(input),
        HandlerKind::ValidateProof => validate_proof::Handler.handle(input),
        HandlerKind::RequestRealmlist => request_realmlist::Handler.handle(input),
        HandlerKind::GetRealmlist => get_realmlist::Handler.handle(input),
        HandlerKind::AuthChallenge => auth_challenge::Handler.handle(input),
        HandlerKind::ReadyForAccountDataTimes => ready_for_account_data_times::Handler.handle(input),
        HandlerKind::RequestCharacters => request_characters::Handler.handle(input),
        HandlerKind::RealmSplit => realm_split::Handler.handle(input),
        HandlerKind::JoinChannels => join_channels::Handler.handle(input),
        HandlerKind::SetInWorld => set_in_world::Handler.handle(input),
        HandlerKind::Logout => logout::Handler.handle(input),
        HandlerKind::QueryUnknownPlayer => query_unknown_player::Handler.handle(input),
        HandlerKind::LogChatMessage => log_chat_message::Handler.handle(input),
        HandlerKind::DetectMotion => detect_motion::Handler.handle(input),
        HandlerKind::HandleNameQueryResponse => handle_name_query_response::Handler.handle(input),
        HandlerKind::PlayerLogin => player_login::Handler.handle(input),
        HandlerKind::GetCharactersList => get_characters_list::Handler.handle(input),
        _ => handle_spell_go::Handler.handle(input),
    };
    Some(result)
}

} // verus!
