use tentacli::client::packet::HandlerOutput;
use tentacli::client::player::handle_update_data::{Handler, ObjectTypeField, ObjectTypeMask, UpdateBlock};
use tentacli::client::player::types::{Gender, Player};
use tentacli::client::session::{DataStorage, HandlerInput, Session};
use tentacli::client::spell::handle_initial_spells;

fn input() -> HandlerInput {
    let mut session = Session::new();
    session.me = Some(Player::new(1, "Me".to_string(), 1, 1, 0, 10));
    HandlerInput { session, data_storage: DataStorage::new(), data: vec![], opcode: 169 }
}

#[test]
fn first_unknown_player_is_added_and_queried() {
    let mut input = input();
    let blocks = vec![
        UpdateBlock { guid: 0, object_type: ObjectTypeField::Missing },
        UpdateBlock { guid: 1, object_type: ObjectTypeField::Missing },
        UpdateBlock { guid: 5, object_type: ObjectTypeField::Integer(ObjectTypeMask::IS_UNIT) },
        UpdateBlock { guid: 6, object_type: ObjectTypeField::Integer(ObjectTypeMask::IS_PLAYER) },
        UpdateBlock { guid: 7, object_type: ObjectTypeField::Missing },
    ];
    let out = Handler.handle_blocks(&mut input, blocks).unwrap();
    assert_eq!(out.len(), 1);
    match &out[0] {
        HandlerOutput::Data(p) => assert_eq!(p.data[6..], 6u64.to_le_bytes()),
        _ => panic!("no name query"),
    }
    assert_eq!(input.data_storage.players.len(), 1);
    assert_eq!(input.data_storage.players[&6].guid, 6);
    assert_eq!(input.data_storage.players[&6].level, 0);
}

#[test]
fn untyped_unknown_object_becomes_a_player_without_gender() {
    let mut input = input();
    let blocks = vec![UpdateBlock { guid: 7, object_type: ObjectTypeField::Missing }];
    Handler.handle_blocks(&mut input, blocks).unwrap();
    assert_eq!(input.data_storage.players[&7].gender, Gender::GENDER_NONE);
    assert_eq!(input.data_storage.players[&7].level, 1);
}

#[test]
fn updates_of_the_character_are_reported() {
    let mut input = input();
    let blocks = vec![
        UpdateBlock { guid: 1, object_type: ObjectTypeField::Other },
        UpdateBlock { guid: 9, object_type: ObjectTypeField::Other },
        UpdateBlock { guid: 1, object_type: ObjectTypeField::Missing },
    ];
    let out = Handler.handle_blocks(&mut input, blocks).unwrap();
    assert_eq!(out.len(), 3);
    assert!(matches!(&out[0], HandlerOutput::ResponseMessage(m, _) if m == "SMSG_UPDATE_OBJECT"));
    assert!(matches!(&out[1], HandlerOutput::UpdatePlayer(p) if p.guid == 1 && p.name == "Me"));
    assert!(input.data_storage.players.is_empty());
}

#[test]
fn initial_spells_are_recorded_once() {
    let mut input = input();
    let out = handle_initial_spells::Handler.handle_spells(&mut input, vec![133, 168, 133]).unwrap();
    assert_eq!(out.len(), 1);
    assert_eq!(input.session.spells, vec![133, 168]);
    handle_initial_spells::Handler.handle_spells(&mut input, vec![168, 5]).unwrap();
    assert_eq!(input.session.spells, vec![133, 168, 5]);
}
