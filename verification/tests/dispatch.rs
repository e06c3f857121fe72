use tentacli::client::handlers::{is_ready, run_handler};
use tentacli::client::packet::{HandlerKind, HandlerOutput};
use tentacli::client::player::character_list::read_character_list;
use tentacli::client::reader::ByteReader;
use tentacli::client::session::{DataStorage, HandlerInput, Session};
use tentacli::config::types::{ChannelLabels, CommonOptions, ConnectionData};
use tentacli::config::Config;

fn input(data: Vec<u8>, opcode: u16) -> HandlerInput {
    HandlerInput { session: Session::new(), data_storage: DataStorage::new(), data, opcode }
}

#[test]
fn handlers_run_when_ready() {
    let mut input = input(vec![0, 3], 0);
    match run_handler(HandlerKind::CheckProofCode, &mut input) {
        Some(Ok(out)) => {
            assert_eq!(out.len(), 2);
            assert!(matches!(out[1], HandlerOutput::Drop));
        },
        _ => panic!("the proof code handler did not run"),
    }
    assert!(is_ready(HandlerKind::SetInWorld, &input));
    run_handler(HandlerKind::SetInWorld, &mut input).unwrap().unwrap();
    assert!(input.session.in_world);
}

#[test]
fn handlers_wait_for_their_state() {
    let mut input = input(vec![0; 31], 1);
    assert!(!is_ready(HandlerKind::ValidateProof, &input));
    assert!(run_handler(HandlerKind::ValidateProof, &mut input).is_none());
    assert!(run_handler(HandlerKind::DetectMotion, &mut input).is_none());
    assert!(run_handler(HandlerKind::JoinChannels, &mut input).is_none());
    assert!(run_handler(HandlerKind::ParseMotd, &mut input).is_none());
}

#[test]
fn login_proof_refuses_a_zero_modulus() {
    let mut data = vec![0u8; 34];
    data.extend([1, 7, 1, 0]);
    data.extend([0u8; 49]);
    let mut input = input(data, 0);
    assert!(!is_ready(HandlerKind::LoginProof, &input));
    assert!(run_handler(HandlerKind::LoginProof, &mut input).is_none());
}

fn character_entry(guid: u64, name: &str, level: u8) -> Vec<u8> {
    let mut d = guid.to_le_bytes().to_vec();
    d.extend(name.as_bytes());
    d.push(0);
    d.extend([2, 1, 0, 1, 2, 3, 4, 5, level]);
    d.extend([0u8; 252]);
    d
}

#[test]
fn character_list_answer_is_read() {
    let mut data = vec![2u8];
    data.extend(character_entry(3, "Arthas", 80));
    data.extend(character_entry(4, "Uther", 70));
    let mut reader = ByteReader::new(&data);
    let players = read_character_list(&mut reader).unwrap();
    assert_eq!(players.len(), 2);
    assert_eq!(players[0].guid, 3);
    assert_eq!(players[0].name, "Arthas");
    assert_eq!((players[0].race, players[0].class, players[0].gender, players[0].level), (2, 1, 0, 80));
    assert_eq!(players[1].name, "Uther");
    assert_eq!(players[1].level, 70);
    let mut short = data.clone();
    short.truncate(data.len() - 1);
    let mut reader = ByteReader::new(&short);
    assert!(read_character_list(&mut reader).is_err());
}

#[test]
fn character_list_goes_to_the_user_without_pattern() {
    let mut data = vec![1u8];
    data.extend(character_entry(3, "Arthas", 80));
    let mut input = input(data, 59);
    input.session.config = Some(Config::from_options(
        CommonOptions { auto_create_character_for_new_account: false },
        ConnectionData::new("a", "b", String::new(), String::new()),
        ChannelLabels { lfg: String::new(), common: String::new(), trade: String::new() },
    ));
    match run_handler(HandlerKind::GetCharactersList, &mut input) {
        Some(Ok(out)) => {
            assert_eq!(out.len(), 3);
            match &out[1] {
                HandlerOutput::TransferCharactersList(list) => assert_eq!(list[0].name, "Arthas"),
                _ => panic!("no list"),
            }
        },
        _ => panic!("the character list handler did not run"),
    }
}
