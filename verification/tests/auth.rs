use tentacli::client::auth::check_proof_code;
use tentacli::client::auth::get_realmlist;
use tentacli::client::auth::login_challenge;
use tentacli::client::auth::login_proof;
use tentacli::client::auth::request_realmlist;
use tentacli::client::auth::validate_proof;
use tentacli::client::auth::AuthProcessor;
use tentacli::client::flow::{cannot_connect_message, handle_packet, resume_handling, resume_with_choice};
use tentacli::client::player::types::Player;
use tentacli::client::reader::ByteReader;
use tentacli::client::realm::types::read_realms;
use tentacli::client::packet::{HandlerError, HandlerKind, HandlerOutput, PacketDetails};
use tentacli::client::session::{DataStorage, HandlerInput, Session};
use tentacli::config::types::{ChannelLabels, CommonOptions, ConnectionData};
use tentacli::config::Config;
use tentacli::errors::{FieldError, RealmListError};

fn config(realm_pattern: &str) -> Config {
    Config::from_options(
        CommonOptions { auto_create_character_for_new_account: false },
        ConnectionData::new("account", "password", realm_pattern.to_string(), String::new()),
        ChannelLabels { lfg: "LFG".to_string(), common: "COMMON".to_string(), trade: "TRADE".to_string() },
    )
}

fn input(data: Vec<u8>, opcode: u16, realm_pattern: &str) -> HandlerInput {
    let mut session = Session::new();
    session.config = Some(config(realm_pattern));
    HandlerInput { session, data_storage: DataStorage::new(), data, opcode }
}

fn message_of(output: &HandlerOutput) -> String {
    match output {
        HandlerOutput::ErrorMessage(m, _)
        | HandlerOutput::DebugMessage(m, _)
        | HandlerOutput::ResponseMessage(m, _)
        | HandlerOutput::RequestMessage(m, _)
        | HandlerOutput::SuccessMessage(m, _) => m.clone(),
        _ => panic!("not a message"),
    }
}

#[test]
fn login_challenge_packet_layout() {
    let packet = login_challenge::handler("TEST");
    assert_eq!(packet.opcode, 0);
    let mut expected = vec![0u8, 0, 34, 0];
    expected.extend(b"WoW\0");
    expected.extend([3, 3, 5]);
    expected.extend([0x34, 0x30]);
    expected.extend(b"68x\0");
    expected.extend(b"niW\0");
    expected.extend(b"URur");
    expected.extend([0, 0, 0, 0]);
    expected.extend([1, 0, 0, 127]);
    expected.push(4);
    expected.extend(b"TEST");
    assert_eq!(packet.data, expected);
}

#[test]
fn proof_code_success_gives_nothing() {
    let mut input = input(vec![0, 0], 0, "");
    let out = check_proof_code::Handler.handle(&mut input).unwrap();
    assert!(out.is_empty());
}

#[test]
fn proof_code_failures_are_explained_and_drop() {
    let cases: [(u8, &str); 6] = [
        (1, "Unable to connect"),
        (3, "Account was banned"),
        (5, "Credentials not valid"),
        (6, "Account already online"),
        (8, "Cannot login at this time, try again later"),
        (0x0C, "Account was temporary suspended"),
    ];
    for (code, text) in cases {
        let mut input = input(vec![0, code], 0, "");
        let out = check_proof_code::Handler.handle(&mut input).unwrap();
        assert_eq!(out.len(), 2);
        assert_eq!(message_of(&out[0]), text);
        assert!(matches!(out[1], HandlerOutput::Drop));
    }
    let mut input = input(vec![0, 0x12], 0, "");
    let out = check_proof_code::Handler.handle(&mut input).unwrap();
    assert_eq!(message_of(&out[0]), "Unknown error with code: \"18\"");
}

#[test]
fn proof_code_of_a_short_answer_is_a_read_error() {
    let mut input = input(vec![0], 0, "");
    let err = check_proof_code::Handler.handle(&mut input).unwrap_err();
    assert!(err == HandlerError::Field(FieldError::CannotRead));
}

fn challenge() -> Vec<u8> {
    vec![0, 0, 1, 2, 3, 4, 5, 6, 7, 8, 9, 10, 11, 12, 13, 14, 15, 16, 17, 18, 19, 20, 21, 22, 23, 24, 25, 26, 27, 28, 29, 30, 31, 32, 1, 7, 32, 183, 155, 62, 42, 135, 130, 60, 171, 143, 94, 191, 191, 142, 177, 1, 8, 83, 80, 6, 41, 139, 91, 173, 189, 91, 83, 225, 137, 94, 100, 75, 137, 100, 101, 102, 103, 104, 105, 106, 107, 108, 109, 110, 111, 112, 113, 114, 115, 116, 117, 118, 119, 120, 121, 122, 123, 124, 125, 126, 127, 128, 129, 130, 131, 0, 0, 0, 0, 0, 0, 0, 0, 0, 0, 0, 0, 0, 0, 0, 0, 0]
}

fn private_ephemeral() -> [u8; 19] {
    let mut secret = [0u8; 19];
    for (k, b) in secret.iter_mut().enumerate() {
        *b = 200 + k as u8;
    }
    secret
}

#[test]
fn login_proof_answers_the_challenge() {
    let mut input = input(challenge(), 0, "");
    let out = login_proof::Handler.handle_with_private_ephemeral(&mut input, private_ephemeral()).unwrap();
    assert_eq!(out.len(), 3);
    assert_eq!(message_of(&out[0]), "LOGIN_CHALLENGE");
    assert_eq!(message_of(&out[1]), "Session key created");
    match &out[1] {
        HandlerOutput::DebugMessage(_, Some(key)) => assert_eq!(
            key,
            "90521b4ffabb802aaf15c8dfd3d9a3ad96c67c6b5ed72651f2b6fdabe5c9c688bab4f3d052752c96"
        ),
        _ => panic!("no session key"),
    }
    match &out[2] {
        HandlerOutput::Data(packet) => {
            assert_eq!(packet.opcode, 1);
            assert_eq!(packet.data, vec![1, 44, 51, 148, 53, 5, 28, 3, 149, 76, 208, 173, 119, 82, 60, 179, 11, 98, 14, 98, 139, 242, 36, 192, 177, 231, 18, 33, 156, 233, 79, 28, 135, 11, 132, 154, 222, 211, 68, 100, 137, 111, 190, 211, 153, 42, 124, 226, 27, 15, 17, 118, 8, 205, 203, 189, 81, 136, 49, 94, 107, 77, 25, 68, 157, 73, 45, 188, 250, 241, 86, 163, 71, 0, 0]);
        },
        _ => panic!("no proof packet"),
    }
    assert!(input.session.srp.is_some());
}

#[test]
fn login_proof_needs_the_whole_challenge() {
    let mut data = challenge();
    data.truncate(60);
    let mut input = input(data, 0, "");
    let err = login_proof::Handler.handle_with_private_ephemeral(&mut input, private_ephemeral()).unwrap_err();
    assert!(err == HandlerError::Field(FieldError::CannotRead));
    assert!(input.session.srp.is_none());
}

#[test]
fn login_proof_needs_a_config() {
    let mut input = input(challenge(), 0, "");
    input.session.config = None;
    let err = login_proof::Handler.handle_with_private_ephemeral(&mut input, private_ephemeral()).unwrap_err();
    assert!(err == HandlerError::ConfigNotSet);
}

fn proof_answer(server_proof: &[u8]) -> Vec<u8> {
    let mut data = vec![0u8];
    data.extend_from_slice(server_proof);
    data.extend([0u8; 10]);
    data
}

#[test]
fn server_proof_is_checked() {
    let mut input = input(challenge(), 0, "");
    login_proof::Handler.handle_with_private_ephemeral(&mut input, private_ephemeral()).unwrap();
    let good = [13u8, 92, 107, 64, 247, 67, 107, 158, 125, 214, 21, 177, 169, 123, 178, 234, 16, 119, 104, 138];
    input.data = proof_answer(&good);
    let out = validate_proof::Handler.handle(&mut input).unwrap();
    assert!(out.is_empty());
    let mut bad = good;
    bad[0] ^= 1;
    input.data = proof_answer(&bad);
    let out = validate_proof::Handler.handle(&mut input).unwrap();
    assert_eq!(out.len(), 2);
    assert_eq!(message_of(&out[0]), "Proof is not valid");
    assert!(matches!(out[1], HandlerOutput::Drop));
}

#[test]
fn realm_list_is_requested_with_four_zero_bytes() {
    let mut input = input(vec![], 1, "");
    let out = request_realmlist::Handler.handle(&mut input).unwrap();
    match &out[0] {
        HandlerOutput::Data(packet) => assert_eq!(packet.data, vec![16, 0, 0, 0, 0]),
        _ => panic!("no packet"),
    }
}

fn realm_bytes(name: &str, server_id: u8) -> Vec<u8> {
    let mut d = vec![1u8, 0, 2];
    d.extend(name.as_bytes());
    d.push(0);
    d.extend(b"127.0.0.1:8085\0");
    d.extend([0, 0, 0x80, 0x3F]);
    d.extend([3, 1, server_id]);
    d
}

fn realm_list_answer() -> Vec<u8> {
    let mut d = vec![0u8; 6];
    d.extend([2, 0]);
    d.extend(realm_bytes("Frostmourne", 5));
    d.extend(realm_bytes("Icecrown", 7));
    d
}

#[test]
fn realm_list_without_pattern_is_handed_to_the_user() {
    let mut input = input(realm_list_answer(), 16, "");
    let out = get_realmlist::Handler.handle(&mut input).unwrap();
    assert_eq!(out.len(), 3);
    assert_eq!(message_of(&out[0]), "REALM_LIST");
    match &out[1] {
        HandlerOutput::TransferRealmsList(realms) => {
            assert_eq!(realms.len(), 2);
            assert_eq!(realms[0].name, "Frostmourne");
            assert_eq!(realms[0].address, "127.0.0.1:8085");
            assert_eq!(realms[0].population, 0x3F80_0000);
            assert_eq!(realms[1].server_id, 7);
        },
        _ => panic!("no realm list"),
    }
    assert!(matches!(out[2], HandlerOutput::Freeze));
}

#[test]
fn realm_pattern_selects_the_first_match() {
    let mut input = input(realm_list_answer(), 16, "crown|mourne");
    let out = get_realmlist::Handler.try_handle(&mut input).unwrap().unwrap();
    assert_eq!(out.len(), 2);
    assert_eq!(message_of(&out[1]), "Selected \"Frostmourne\" Realm");
    assert_eq!(input.session.selected_realm.unwrap().server_id, 5);
}

#[test]
fn realm_pattern_without_match_is_an_error() {
    let mut input = input(realm_list_answer(), 16, "^Lordaeron$");
    let err = get_realmlist::Handler.handle(&mut input).unwrap_err();
    assert!(err == HandlerError::RealmList(RealmListError::NotFound));
    assert!(input.session.selected_realm.is_none());
}

#[test]
fn realm_pattern_that_does_not_compile_is_refused() {
    let mut input = input(realm_list_answer(), 16, "(unclosed");
    assert!(get_realmlist::Handler.try_handle(&mut input).is_none());
}

#[test]
fn auth_routing() {
    let mut input = input(vec![], 0, "");
    assert_eq!(AuthProcessor::get_handlers(&mut input), vec![HandlerKind::CheckProofCode, HandlerKind::LoginProof]);
    input.opcode = 1;
    assert_eq!(AuthProcessor::get_handlers(&mut input), vec![HandlerKind::ValidateProof, HandlerKind::RequestRealmlist]);
    input.opcode = 16;
    assert_eq!(AuthProcessor::get_handlers(&mut input), vec![HandlerKind::GetRealmlist, HandlerKind::ConnectToRealm]);
    input.opcode = 7;
    assert!(AuthProcessor::get_handlers(&mut input).is_empty());
}

#[test]
fn realm_list_details_show_the_realms() {
    let mut input = input(realm_list_answer(), 16, "crown");
    let out = get_realmlist::Handler.try_handle(&mut input).unwrap().unwrap();
    match &out[0] {
        HandlerOutput::ResponseMessage(m, Some(PacketDetails::Realms(realms))) => {
            assert_eq!(m, "REALM_LIST");
            assert_eq!(realms.len(), 2);
            assert_eq!(realms[1].name, "Icecrown");
            assert_eq!(realms[1].server_id, 7);
        },
        _ => panic!("no realm details"),
    }
}

#[test]
fn login_challenge_details_show_its_fields() {
    let data = challenge();
    let mut input = input(data.clone(), 0, "");
    let out = login_proof::Handler.handle_with_private_ephemeral(&mut input, private_ephemeral()).unwrap();
    match &out[0] {
        HandlerOutput::ResponseMessage(_, Some(PacketDetails::LoginChallenge(c))) => {
            assert_eq!(c.server_ephemeral.to_vec(), data[2..34].to_vec());
            assert_eq!(c.g_len as usize, c.g.len());
            assert_eq!(c.g, data[35..35 + c.g.len()].to_vec());
            assert_eq!(c.n.len(), c.n_len as usize);
        },
        _ => panic!("no challenge details"),
    }
}

#[test]
fn handler_errors_have_their_text() {
    assert_eq!(HandlerError::Field(FieldError::CannotRead).message(), "Read error for field");
    assert_eq!(
        HandlerError::RealmList(RealmListError::NotFound).message(),
        "No realm found ! Check the config file for autoselect - realm_name"
    );
    assert_eq!(HandlerError::ConfigNotSet.message(), "Config is not set");
    assert_eq!(HandlerError::PacketTooLarge.message(), "Packet is too large");
}

#[test]
fn packets_are_shown_handler_by_handler() {
    let mut short = input(vec![0u8; 3], 16, "");
    let (shown, frozen) = handle_packet(false, &mut short);
    assert!(frozen.is_none());
    assert_eq!(shown.len(), 1);
    assert!(matches!(&shown[0], HandlerOutput::ErrorMessage(m, None) if m == "Read error for field"));

    let mut unknown = input(vec![1, 2], 99, "");
    let (shown, frozen) = handle_packet(false, &mut unknown);
    assert!(frozen.is_none());
    assert!(matches!(&shown[0], HandlerOutput::ResponseMessage(m, Some(PacketDetails::Hex(h))) if m == "99" && h == "0102"));
}

#[test]
fn realm_list_waits_for_the_choice_of_the_user() {
    let mut list = input(realm_list_answer(), 16, "");
    let (shown, frozen) = handle_packet(false, &mut list);
    assert_eq!(shown.len(), 2);
    assert_eq!(message_of(&shown[0]), "REALM_LIST");
    let realm = match &shown[1] {
        HandlerOutput::TransferRealmsList(realms) => realms[1].duplicate(),
        _ => panic!("no realm list"),
    };
    assert!(!shown.iter().any(|o| matches!(o, HandlerOutput::Freeze)));
    let frozen = frozen.expect("the handling waits");
    assert!(frozen.outputs.is_empty());
    assert_eq!(frozen.kinds, vec![HandlerKind::ConnectToRealm]);

    let (shown, frozen) = resume_with_choice(HandlerOutput::ExitConfirmed, frozen, &mut list);
    assert!(shown.is_empty());
    let frozen = frozen.expect("still waiting");
    assert!(list.session.selected_realm.is_none());

    let (shown, frozen) = resume_with_choice(HandlerOutput::SelectRealm(realm), frozen, &mut list);
    assert!(shown.is_empty() && frozen.is_none());
    assert_eq!(list.session.selected_realm.unwrap().name, "Icecrown");
}

#[test]
fn handling_goes_on_after_the_choice() {
    let mut session_input = input(vec![], 16, "");
    let pending = vec![
        HandlerOutput::DebugMessage("before".to_string(), None),
        HandlerOutput::Freeze,
        HandlerOutput::SuccessMessage("after".to_string(), None),
    ];
    let (shown, frozen) = resume_handling(pending, vec![HandlerKind::RequestRealmlist], &mut session_input);
    assert_eq!(shown.len(), 1);
    assert_eq!(message_of(&shown[0]), "before");
    let frozen = frozen.unwrap();
    assert_eq!(frozen.outputs.len(), 1);
    assert_eq!(frozen.kinds, vec![HandlerKind::RequestRealmlist]);

    let player = Player::new(3, "Arthas".to_string(), 1, 1, 0, 80);
    let (shown, frozen) = resume_with_choice(HandlerOutput::SelectCharacter(player), frozen, &mut session_input);
    assert!(frozen.is_none());
    assert_eq!(shown.len(), 2);
    assert_eq!(message_of(&shown[0]), "after");
    assert!(matches!(&shown[1], HandlerOutput::Data(p) if p.data == vec![16, 0, 0, 0, 0]));
    assert_eq!(session_input.session.me.unwrap().name, "Arthas");
}

#[test]
fn failed_first_connection_is_shown() {
    assert!(matches!(cannot_connect_message("refused"), HandlerOutput::ErrorMessage(m, None) if m == "Cannot connect: refused"));
}

#[test]
fn realm_list_bytes_give_the_realm() {
    let bytes = [1u8, 0, 0, 1, 2, 0x41, 0, 0x42, 0, 0, 0, 0, 0, 3, 4, 5];
    let mut reader = ByteReader::new(&bytes);
    let realms = read_realms(&mut reader).unwrap();
    assert_eq!(realms.len(), 1);
    let r = &realms[0];
    assert_eq!((r.icon, r.lock, r.flags), (0, 1, 2));
    assert_eq!(r.name, "A");
    assert_eq!(r.address, "B");
    assert!(!r.name.contains('\0') && !r.address.contains('\0'));
    assert_eq!(r.population, 0);
    assert_eq!((r.characters, r.timezone, r.server_id), (3, 4, 5));

    let mut short = ByteReader::new(&bytes[..1]);
    assert!(matches!(read_realms(&mut short), Err(FieldError::CannotRead)));
    let none = [0u8, 0];
    let mut empty = ByteReader::new(&none);
    assert!(read_realms(&mut empty).unwrap().is_empty());
}
