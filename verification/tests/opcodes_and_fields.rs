use tentacli::client::opcodes::Opcode;
use tentacli::client::player::types::{FieldType, ObjectField, PlayerField, UnitField};

#[test]
fn login_opcode_names_go_by_the_low_byte() {
    assert_eq!(Opcode::get_client_opcode_name(0), "LOGIN_CHALLENGE");
    assert_eq!(Opcode::get_client_opcode_name(1), "LOGIN_PROOF");
    assert_eq!(Opcode::get_client_opcode_name(16), "REALM_LIST");
    assert_eq!(Opcode::get_server_opcode_name(256 + 16), "REALM_LIST");
}

#[test]
fn world_opcode_names() {
    assert_eq!(Opcode::get_client_opcode_name(Opcode::CMSG_AUTH_SESSION), "CMSG_AUTH_SESSION");
    assert_eq!(Opcode::get_server_opcode_name(Opcode::SMSG_AUTH_CHALLENGE), "SMSG_AUTH_CHALLENGE");
    assert_eq!(Opcode::get_server_opcode_name(Opcode::MSG_MOVE_HEARTBEAT), "MSG_MOVE_HEARTBEAT");
}

#[test]
fn unknown_opcodes_are_named_by_their_number() {
    assert_eq!(Opcode::get_client_opcode_name(9999), "9999");
    assert_eq!(Opcode::get_server_opcode_name(4321), "4321");
}

#[test]
fn object_field_table() {
    assert!(ObjectField::get_field_type(ObjectField::GUID) == FieldType::LONG);
    assert!(ObjectField::get_field_type(ObjectField::SCALE_X) == FieldType::FLOAT);
    assert!(ObjectField::get_field_type(99) == FieldType::NONE);
    assert_eq!(ObjectField::get_field_name(ObjectField::TYPE), "ObjectField::TYPE");
    assert_eq!(ObjectField::get_field_name(99), "");
}

#[test]
fn unit_and_player_field_tables() {
    assert!(UnitField::get_field_type(UnitField::LEVEL) == FieldType::INT);
    assert_eq!(UnitField::get_field_name(UnitField::LEVEL), "UnitField::LEVEL");
    assert_eq!(PlayerField::get_field_name(PlayerField::CHOSEN_TITLE), "PlayerField::CHOSEN_TITLE");
    assert!(PlayerField::get_field_type(100000) == FieldType::NONE);
}

#[test]
fn field_names_go_with_field_types() {
    for i in 0u32..2048 {
        assert_eq!(UnitField::get_field_name(i).is_empty(), UnitField::get_field_type(i) == FieldType::NONE);
        assert_eq!(PlayerField::get_field_name(i).is_empty(), PlayerField::get_field_type(i) == FieldType::NONE);
    }
    assert_eq!(UnitField::get_field_name(UnitField::LIMIT), "");
}

#[test]
fn opcode_names_are_never_empty() {
    for op in 0u32..5000 {
        assert!(!Opcode::get_client_opcode_name(op).is_empty());
    }
    for op in 0u16..=u16::MAX {
        assert!(!Opcode::get_server_opcode_name(op).is_empty());
    }
}
