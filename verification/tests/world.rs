use std::io::Read;

use tentacli::client::auth::login_proof;
use tentacli::client::chat::globals::JoinChannelOutcome;
use tentacli::client::chat::{ChatOutcome, ChatProcessor, EmoteOutcome, TextEmoteOutcome};
use tentacli::client::packet::{HandlerError, HandlerKind, HandlerOutput};
use tentacli::client::realm::auth_challenge;
use tentacli::client::realm::join_channels;
use tentacli::client::realm::join_trade_channel;
use tentacli::client::realm::logout;
use tentacli::client::realm::ready_for_account_data_times;
use tentacli::client::realm::realm_split;
use tentacli::client::realm::request_characters;
use tentacli::client::realm::set_in_world;
use tentacli::client::realm::{Realm, RealmProcessor};
use tentacli::client::session::{DataStorage, HandlerInput, Session};
use tentacli::config::types::{AddonInfo, ChannelLabels, CommonOptions, ConnectionData};
use tentacli::config::{default_addons, Config};

fn config() -> Config {
    Config::from_options(
        CommonOptions { auto_create_character_for_new_account: false },
        ConnectionData::new("account", "password", String::new(), String::new()),
        ChannelLabels { lfg: "LFG".to_string(), common: "COMMON".to_string(), trade: "TRADE".to_string() },
    )
}

fn input(data: Vec<u8>, opcode: u16) -> HandlerInput {
    let mut session = Session::new();
    session.config = Some(config());
    HandlerInput { session, data_storage: DataStorage::new(), data, opcode }
}

fn packet_of(output: &HandlerOutput) -> (u32, Vec<u8>) {
    match output {
        HandlerOutput::Data(p) => (p.opcode, p.data.clone()),
        _ => panic!("not a packet"),
    }
}

fn world_header(size: u16, opcode: u32) -> Vec<u8> {
    let mut h = vec![(size >> 8) as u8, (size & 0xFF) as u8];
    h.extend(opcode.to_le_bytes());
    h
}

#[test]
fn empty_world_requests() {
    let mut input = input(vec![], 0);
    let (op, data) = packet_of(&ready_for_account_data_times::Handler.handle(&mut input).unwrap()[0]);
    assert_eq!(op, 1279);
    assert_eq!(data, world_header(4, 1279));
    let (op, data) = packet_of(&request_characters::Handler.handle(&mut input).unwrap()[0]);
    assert_eq!(op, 55);
    assert_eq!(data, world_header(4, 55));
    let (op, data) = packet_of(&realm_split::Handler.handle(&mut input).unwrap()[0]);
    assert_eq!(op, 908);
    let mut expected = world_header(8, 908);
    expected.extend([0xFF; 4]);
    assert_eq!(data, expected);
}

#[test]
fn logout_and_in_world() {
    let mut input = input(vec![], 0);
    let out = logout::Handler.handle(&mut input).unwrap();
    assert!(matches!(out[0], HandlerOutput::ExitConfirmed));
    assert!(!input.session.in_world);
    let out = set_in_world::Handler.handle(&mut input).unwrap();
    assert!(out.is_empty());
    assert!(input.session.in_world);
}

#[test]
fn channels_are_joined_under_the_common_label() {
    let mut input = input(vec![], 0);
    let out = join_channels::Handler.handle(&mut input).unwrap();
    assert_eq!(out.len(), 3);
    for (k, id) in [1u32, 26, 2].iter().enumerate() {
        let (op, data) = packet_of(&out[k]);
        assert_eq!(op, 151);
        let mut expected = world_header(17, 151);
        expected.extend(id.to_le_bytes());
        expected.extend([0, 0]);
        expected.extend(b"COMMON\0");
        assert_eq!(data, expected);
    }
    let out = join_trade_channel::Handler.handle(&mut input).unwrap();
    let (_, data) = packet_of(&out[0]);
    assert_eq!(&data[12..], b"TRADE\0");
}

#[test]
fn chat_packets() {
    let chat = ChatOutcome { message_type: 1, language: 7, message: "hi\0".to_string() };
    let mut expected = world_header(15, 149);
    expected.extend([1, 0, 0, 0, 7, 0, 0, 0]);
    expected.extend(b"hi\0");
    assert_eq!(chat.packet().data, expected);
    assert_eq!(EmoteOutcome { emote_type: 10 }.packet().data[6..], [10, 0, 0, 0]);
    let emote = TextEmoteOutcome { text_emote_type: 2, emote_num: 3, guid: 0x0102 };
    assert_eq!(emote.packet().data[6..], [2, 0, 0, 0, 3, 0, 0, 0, 2, 1, 0, 0, 0, 0, 0, 0]);
    assert_eq!(JoinChannelOutcome::new(9, "X".to_string()).packet().data[6..], [9, 0, 0, 0, 0, 0, b'X', 0]);
}

fn challenge() -> Vec<u8> {
    vec![0, 0, 1, 2, 3, 4, 5, 6, 7, 8, 9, 10, 11, 12, 13, 14, 15, 16, 17, 18, 19, 20, 21, 22, 23, 24, 25, 26, 27, 28, 29, 30, 31, 32, 1, 7, 32, 183, 155, 62, 42, 135, 130, 60, 171, 143, 94, 191, 191, 142, 177, 1, 8, 83, 80, 6, 41, 139, 91, 173, 189, 91, 83, 225, 137, 94, 100, 75, 137, 100, 101, 102, 103, 104, 105, 106, 107, 108, 109, 110, 111, 112, 113, 114, 115, 116, 117, 118, 119, 120, 121, 122, 123, 124, 125, 126, 127, 128, 129, 130, 131, 0, 0, 0, 0, 0, 0, 0, 0, 0, 0, 0, 0, 0, 0, 0, 0, 0]
}

fn realm(server_id: u8) -> Realm {
    Realm {
        icon: 0,
        lock: 0,
        flags: 0,
        name: "Realm".to_string(),
        address: "127.0.0.1:8085".to_string(),
        population: 0,
        characters: 0,
        timezone: 0,
        server_id,
    }
}

#[test]
fn auth_session_answers_the_world_challenge() {
    let mut input = input(challenge(), 0);
    let secret = [7u8; 19];
    login_proof::Handler.handle_with_private_ephemeral(&mut input, secret).unwrap();
    input.session.selected_realm = Some(realm(5));
    let mut data = vec![0u8, 0, 0, 0, 0xAA, 0xBB, 0xCC, 0xDD];
    data.extend([0u8; 32]);
    input.data = data;
    input.opcode = 492;
    let out = auth_challenge::Handler.handle_with_client_seed(&mut input, [1, 2, 3, 4]).unwrap();
    assert_eq!(out.len(), 2);
    let (op, data) = packet_of(&out[1]);
    assert_eq!(op, 493);
    let body = &data[6..];
    assert_eq!(&body[0..8], &[0x34, 0x30, 0, 0, 0, 0, 0, 0]);
    assert_eq!(&body[8..16], b"ACCOUNT\0");
    assert_eq!(&body[16..20], &[0, 0, 0, 0]);
    assert_eq!(&body[20..24], &[1, 2, 3, 4]);
    assert_eq!(&body[32..36], &[5, 0, 0, 0]);
    let mut expected_info = Vec::new();
    expected_info.extend(23u32.to_le_bytes());
    for addon in default_addons() {
        expected_info.extend(addon.name.as_bytes());
        expected_info.push(0);
        expected_info.push(addon.flags);
        expected_info.extend(addon.modulus_crc.to_le_bytes());
        expected_info.extend(addon.urlcrc_crc.to_le_bytes());
    }
    expected_info.extend(1636457673u32.to_le_bytes());
    let size = u32::from_le_bytes([body[64], body[65], body[66], body[67]]);
    assert_eq!(size as usize, expected_info.len());
    let mut decoder = flate2::read::ZlibDecoder::new(&body[68..]);
    let mut inflated = Vec::new();
    decoder.read_to_end(&mut inflated).unwrap();
    assert_eq!(inflated, expected_info);
    assert_eq!(data[0..2], ((body.len() + 4) as u16).to_be_bytes());
}

#[test]
fn auth_session_needs_the_whole_challenge() {
    let mut input = input(vec![0; 10], 492);
    input.session.selected_realm = Some(realm(1));
    let mut other = self::input(challenge(), 0);
    login_proof::Handler.handle_with_private_ephemeral(&mut other, [7u8; 19]).unwrap();
    input.session.srp = other.session.srp.take();
    let err = auth_challenge::Handler.handle_with_client_seed(&mut input, [0; 4]).unwrap_err();
    assert!(err == HandlerError::Field(tentacli::errors::FieldError::CannotRead));
}

#[test]
fn addon_info_layout() {
    let addons = vec![AddonInfo { name: "A".to_string(), flags: 1, modulus_crc: 2, urlcrc_crc: 3 }];
    let info = AddonInfo::build_addon_info(&addons).unwrap();
    assert_eq!(info, vec![1, 0, 0, 0, b'A', 0, 1, 2, 0, 0, 0, 3, 0, 0, 0, 201, 92, 138, 97]);
    assert_eq!(default_addons().len(), 23);
    assert_eq!(default_addons()[5].name, "Blizzard_BindingUI");
    assert_eq!(default_addons()[5].flags, 225);
}

#[test]
fn realm_and_chat_routing() {
    let mut input = input(vec![0, 0, 0, 0], 494);
    assert_eq!(
        RealmProcessor::process_input(&mut input),
        vec![HandlerKind::ReadyForAccountDataTimes, HandlerKind::RequestCharacters, HandlerKind::RealmSplit]
    );
    input.opcode = 77;
    assert_eq!(RealmProcessor::process_input(&mut input), vec![HandlerKind::Logout]);
    input.opcode = 150;
    assert_eq!(ChatProcessor::get_handlers(&mut input), vec![HandlerKind::QueryUnknownPlayer, HandlerKind::LogChatMessage]);
}
