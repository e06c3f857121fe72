use tentacli::client::chat::log_chat_message;
use tentacli::client::chat::query_unknown_player;
use tentacli::client::flow::{after_connect, connected_message, decide_output, route_packet, sent_message, unhandled_packet, OutputAction};
use tentacli::client::guid::parse_packed_guid;
use tentacli::client::movement::detect_motion;
use tentacli::client::movement::MovementProcessor;
use tentacli::client::packet::{HandlerError, HandlerKind, HandlerOutput, PacketDetails};
use tentacli::client::player::get_characters_list;
use tentacli::client::player::handle_name_query_response;
use tentacli::client::player::player_login;
use tentacli::client::player::traits::{generate_random_string, name_from_draws, get_random_class, get_random_gender, get_random_race};
use tentacli::client::player::types::{Class, Gender, Player, Race};
use tentacli::client::player::PlayerProcessor;
use tentacli::client::session::{DataStorage, HandlerInput, Session};
use tentacli::client::spell::handle_spell_go;
use tentacli::config::types::{ChannelLabels, CommonOptions, ConnectionData};
use tentacli::config::Config;
use tentacli::errors::CharacterListError;

fn config(auto_create: bool, character_pattern: &str) -> Config {
    Config::from_options(
        CommonOptions { auto_create_character_for_new_account: auto_create },
        ConnectionData::new("account", "password", String::new(), character_pattern.to_string()),
        ChannelLabels { lfg: "LFG".to_string(), common: "COMMON".to_string(), trade: "TRADE".to_string() },
    )
}

fn input(data: Vec<u8>, opcode: u16) -> HandlerInput {
    let mut session = Session::new();
    session.config = Some(config(false, ""));
    HandlerInput { session, data_storage: DataStorage::new(), data, opcode }
}

fn player(guid: u64, name: &str) -> Player {
    Player::new(guid, name.to_string(), Race::ORC, Class::WARRIOR, Gender::GENDER_MALE, 80)
}

fn message_of(output: &HandlerOutput) -> String {
    match output {
        HandlerOutput::ErrorMessage(m, _)
        | HandlerOutput::DebugMessage(m, _)
        | HandlerOutput::ResponseMessage(m, _)
        | HandlerOutput::RequestMessage(m, _)
        | HandlerOutput::SuccessMessage(m, _) => m.clone(),
        _ => panic!("not a message"),
    }
}

#[test]
fn packed_guids() {
    assert_eq!(parse_packed_guid(&[0b0000_0101, 0x11, 0x22], 0), Some((0x22_0011, 3)));
    assert_eq!(parse_packed_guid(&[9, 0, 0xFF], 1), Some((0, 2)));
    assert_eq!(parse_packed_guid(&[0xFF, 1, 2, 3], 0), None);
    assert_eq!(parse_packed_guid(&[0x80, 0x7F], 0), Some((0x7F00_0000_0000_0000, 2)));
    assert_eq!(parse_packed_guid(&[], 0), None);
}

#[test]
fn unknown_speakers_are_queried() {
    let mut data = vec![0u8; 5];
    data.extend(42u64.to_le_bytes());
    let mut input = input(data, 150);
    let out = query_unknown_player::Handler.handle(&mut input).unwrap();
    assert_eq!(out.len(), 2);
    match &out[1] {
        HandlerOutput::Data(p) => assert_eq!(p.data[6..], 42u64.to_le_bytes()),
        _ => panic!("no query"),
    }
    input.data_storage.add(player(42, "Known"));
    assert_eq!(query_unknown_player::Handler.handle(&mut input).unwrap().len(), 1);
}

#[test]
fn chat_messages_are_read() {
    let mut data = vec![0x11u8];
    data.extend(7u32.to_le_bytes());
    data.extend(5u64.to_le_bytes());
    data.extend([0u8; 4]);
    data.extend(b"world\0");
    data.extend(9u64.to_le_bytes());
    data.extend(3u32.to_le_bytes());
    data.extend(b"hey");
    let mut input = input(data, 150);
    let out = log_chat_message::Handler.handle(&mut input).unwrap();
    match &out[1] {
        HandlerOutput::ChatMessage(m) => {
            assert_eq!(m.message_type, 0x11);
            assert_eq!(m.language, 7);
            assert_eq!(m.sender_guid, 5);
            assert_eq!(m.channel_name, "world");
            assert_eq!(m.target_guid, 9);
            assert_eq!(m.message, "hey");
        },
        _ => panic!("no chat message"),
    }
    input.data.truncate(20);
    assert!(log_chat_message::Handler.handle(&mut input).is_err());
}

fn name_answer(guid_bytes: &[u8], name: &str) -> Vec<u8> {
    let mut d = guid_bytes.to_vec();
    d.push(0);
    d.extend(name.as_bytes());
    d.push(0);
    d.extend(b"Realm\0");
    d.extend([Race::HUMAN, Gender::GENDER_FEMALE, Class::ROGUE]);
    d
}

#[test]
fn name_answers_update_the_players() {
    let mut input = input(name_answer(&[1, 9], "Jaina"), 81);
    input.session.me = Some(player(1, "Me"));
    let out = handle_name_query_response::Handler.handle(&mut input).unwrap();
    assert_eq!(message_of(&out[0]), "SMSG_NAME_QUERY_RESPONSE");
    assert_eq!(input.data_storage.players.len(), 1);
    let p = &input.data_storage.players[&9];
    assert_eq!((p.guid, p.name.as_str(), p.race, p.class, p.gender, p.level), (9, "Jaina", Race::HUMAN, Class::ROGUE, Gender::GENDER_FEMALE, 1));
    input.data = name_answer(&[1, 9], "Thrall");
    handle_name_query_response::Handler.handle(&mut input).unwrap();
    assert_eq!(input.data_storage.players.len(), 1);
    assert_eq!(input.data_storage.players[&9].name, "Thrall");
    input.data = name_answer(&[1, 1], "Me again");
    handle_name_query_response::Handler.handle(&mut input).unwrap();
    assert_eq!(input.data_storage.players.len(), 1);
    input.data = vec![1, 9, 1];
    let out = handle_name_query_response::Handler.handle(&mut input).unwrap();
    assert_eq!(message_of(&out[0]), "Player not exists");
}

#[test]
fn motion_of_strangers_asks_their_names() {
    let mut input = input(vec![1, 33, 0, 0], 181);
    input.session.me = Some(player(1, "Me"));
    assert_eq!(detect_motion::Handler.handle(&mut input).unwrap().len(), 2);
    input.data = vec![1, 1];
    assert_eq!(detect_motion::Handler.handle(&mut input).unwrap().len(), 1);
}

#[test]
fn spell_go_tells_who_casts() {
    let mut input = input(vec![0, 1, 7], 306);
    input.session.me = Some(player(7, "Me"));
    handle_spell_go::Handler.handle(&mut input).unwrap();
    assert!(input.session.is_casting);
    input.data = vec![0, 1, 8];
    handle_spell_go::Handler.handle(&mut input).unwrap();
    assert!(!input.session.is_casting);
}

#[test]
fn characters_are_listed_or_selected() {
    let list = vec![player(3, "Arthas"), player(4, "Uther")];
    let mut input = input(vec![], 59);
    let out = get_characters_list::Handler.handle_characters(&mut input, list.clone()).unwrap();
    assert_eq!(out.len(), 3);
    assert!(matches!(out[1], HandlerOutput::TransferCharactersList(_)));
    assert!(matches!(out[2], HandlerOutput::Freeze));
    input.session.config = Some(config(false, "^Uth"));
    let out = get_characters_list::Handler.try_handle_characters(&mut input, list.clone()).unwrap().unwrap();
    assert_eq!(message_of(&out[1]), "Selected \"Uther\" Character");
    assert_eq!(input.session.me.as_ref().unwrap().guid, 4);
    let out = player_login::Handler.handle(&mut input).unwrap();
    match &out[0] {
        HandlerOutput::Data(p) => {
            assert_eq!(p.opcode, 61);
            assert_eq!(p.data[6..], 4u64.to_le_bytes());
        },
        _ => panic!("no login packet"),
    }
}

#[test]
fn missing_character_is_an_error() {
    let mut input = input(vec![], 59);
    input.session.config = Some(config(false, "Nobody"));
    let err = get_characters_list::Handler.handle_characters(&mut input, vec![player(3, "Arthas")]).unwrap_err();
    assert!(err == HandlerError::CharacterList(CharacterListError::NotFound));
    let err = player_login::Handler.handle(&mut input).unwrap_err();
    assert!(err == HandlerError::CharacterList(CharacterListError::Empty));
}

#[test]
fn new_accounts_get_a_character() {
    let mut input = input(vec![], 59);
    input.session.config = Some(config(true, ""));
    let out = get_characters_list::Handler.handle_characters(&mut input, vec![]).unwrap();
    assert_eq!(out.len(), 4);
    let announce = message_of(&out[1]);
    assert!(announce.starts_with("Creating character with name \""));
    match &out[2] {
        HandlerOutput::Data(p) => {
            assert_eq!(p.opcode, 54);
            let body = &p.data[6..];
            let name_end = body.iter().position(|b| *b == 0).unwrap();
            assert!((10..=12).contains(&name_end));
            assert!(body[0].is_ascii_uppercase());
            assert!(body[1..name_end].iter().all(|c| c.is_ascii_lowercase()));
            assert_eq!(body[name_end + 4..], [0, 0, 0, 0, 0, 0]);
        },
        _ => panic!("no creation packet"),
    }
    match &out[3] {
        HandlerOutput::Data(p) => assert_eq!(p.opcode, 55),
        _ => panic!("no list request"),
    }
    assert!(player_login::Handler.handle(&mut input).unwrap().is_empty());
}

#[test]
fn random_character_attributes() {
    for _ in 0..20 {
        let name = generate_random_string(false);
        assert!((9..=11).contains(&name.len()));
        assert!(name.chars().all(|c| c.is_ascii_lowercase()));
        assert!([Race::HUMAN, Race::ORC, Race::DWARF, Race::NIGHTELF, Race::UNDEAD, Race::TROLL].contains(&get_random_race()));
        assert!([Class::WARRIOR, Class::ROGUE].contains(&get_random_class()));
        assert!([Gender::GENDER_MALE, Gender::GENDER_FEMALE].contains(&get_random_gender()));
    }
}

#[test]
fn routing_follows_the_connection_phase() {
    let mut input = input(vec![0, 0, 181, 0], 0);
    assert_eq!(route_packet(false, &mut input), vec![HandlerKind::CheckProofCode, HandlerKind::LoginProof]);
    let mut input = self::input(vec![0, 0, 181, 0], 150);
    assert_eq!(
        route_packet(true, &mut input),
        vec![HandlerKind::QueryUnknownPlayer, HandlerKind::LogChatMessage, HandlerKind::DetectMotion]
    );
    assert_eq!(input.opcode, 181);
    let mut input = self::input(vec![0, 0, 0, 0], 59);
    assert_eq!(route_packet(true, &mut input), vec![HandlerKind::GetCharactersList, HandlerKind::PlayerLogin]);
    assert_eq!(PlayerProcessor::get_handlers(&mut input), vec![HandlerKind::GetCharactersList, HandlerKind::PlayerLogin]);
    let mut input = self::input(vec![0, 0, 218, 0], 1);
    assert_eq!(MovementProcessor::process_input(&mut input), vec![HandlerKind::DetectMotion]);
    assert_eq!(input.opcode, 218);
}

#[test]
fn outputs_become_actions() {
    let mut session = Session::new();
    let actions = decide_output(HandlerOutput::ExitRequest, false, &mut session);
    assert!(matches!(actions[..], [OutputAction::Broadcast(HandlerOutput::ExitConfirmed)]));
    let actions = decide_output(HandlerOutput::ExitRequest, true, &mut session);
    assert_eq!(actions.len(), 2);
    match &actions[1] {
        OutputAction::Send(p) => assert_eq!(p.data, vec![0, 4, 75, 0, 0, 0]),
        _ => panic!("no logout request"),
    }
    assert!(matches!(decide_output(HandlerOutput::Drop, true, &mut session)[..], [OutputAction::Stop]));
    let actions = decide_output(HandlerOutput::SelectCharacter(player(2, "Jaina")), true, &mut session);
    assert!(matches!(actions[..], [OutputAction::Resume]));
    assert_eq!(session.me.as_ref().unwrap().name, "Jaina");
    assert!(decide_output(HandlerOutput::Freeze, true, &mut session).is_empty());
}

#[test]
fn client_messages() {
    assert_eq!(message_of(&connected_message("127.0.0.1", 3724)), "Connected to 127.0.0.1:3724");
    assert_eq!(message_of(&sent_message(0, 40, &[0, 1])), "LOGIN_CHALLENGE: 40 bytes sent");
    assert!(matches!(sent_message(0, 2, &[0xAB, 0x01]), HandlerOutput::RequestMessage(_, Some(h)) if h == "ab01"));
    match unhandled_packet(4321, &[0xAB, 0x01]) {
        HandlerOutput::ResponseMessage(m, Some(PacketDetails::Hex(hex))) => {
            assert_eq!(m, "4321");
            assert_eq!(hex, "ab01");
        },
        _ => panic!("not a response"),
    }
}

#[test]
fn world_connection_outcome() {
    let (shown, connected) = after_connect("10.0.0.2", 8085, Ok(()), false);
    assert!(connected);
    assert_eq!(message_of(&shown), "Connected to 10.0.0.2:8085");
    let (shown, connected) = after_connect("10.0.0.2", 8085, Err("refused".to_string()), false);
    assert!(!connected);
    assert!(matches!(&shown, HandlerOutput::ErrorMessage(m, None) if m == "refused"));
}

#[test]
fn packet_details_show_what_was_read() {
    let mut data = vec![0u8; 5];
    data.extend(42u64.to_le_bytes());
    let mut chat = input(data, 150);
    let out = query_unknown_player::Handler.handle(&mut chat).unwrap();
    assert!(matches!(&out[0], HandlerOutput::ResponseMessage(_, Some(PacketDetails::Guid(42)))));

    let mut answer = input(name_answer(&[1, 9], "Jaina"), 81);
    answer.session.me = Some(player(1, "Me"));
    let out = handle_name_query_response::Handler.handle(&mut answer).unwrap();
    match &out[0] {
        HandlerOutput::ResponseMessage(_, Some(PacketDetails::Name { guid, name, race, gender, class })) => {
            assert_eq!((*guid, name.as_str(), *race, *gender, *class), (9, "Jaina", Race::HUMAN, Gender::GENDER_FEMALE, Class::ROGUE));
        },
        _ => panic!("no name details"),
    }

    let mut cast = input(vec![0, 1, 7], 306);
    cast.session.me = Some(player(7, "Me"));
    let out = handle_spell_go::Handler.handle(&mut cast).unwrap();
    assert!(matches!(&out[0], HandlerOutput::ResponseMessage(_, Some(PacketDetails::SpellGo { item: 0, caster: 7 }))));

    let mut motion = input(vec![1, 33, 0, 0], 181);
    motion.session.me = Some(player(1, "Me"));
    let out = detect_motion::Handler.handle(&mut motion).unwrap();
    assert!(matches!(&out[0], HandlerOutput::ResponseMessage(_, Some(PacketDetails::Guid(33)))));
}

#[test]
fn names_follow_the_draws() {
    assert_eq!(name_from_draws(&vec![0, 27, 51, 25], false), "abzz");
    assert_eq!(name_from_draws(&vec![33, 0, 26], true), "Hhaa");
    assert_eq!(name_from_draws(&vec![], true), "");
}
