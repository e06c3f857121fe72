//! Opcodes of the login and world protocols and their printable names.

use vstd::prelude::*;

use crate::bytes::{decimal_chars, decimal_string};

verus! {

/// Opcodes of the login (authentication) server and of the world server.
#[non_exhaustive]
pub struct Opcode;

impl Opcode {
    pub const LOGIN_CHALLENGE: u8 = 0;
    pub const LOGIN_PROOF: u8 = 1;
    pub const REALM_LIST: u8 = 16;
    pub const CMSG_CHAR_CREATE: u32 = 54;
    pub const CMSG_CHAR_ENUM: u32 = 55;
    pub const CMSG_PLAYER_LOGIN: u32 = 61;
    pub const CMSG_LOGOUT_REQUEST: u32 = 75;
    pub const CMSG_NAME_QUERY: u32 = 80;
    pub const CMSG_ITEM_QUERY_SINGLE: u32 = 86;
    pub const CMSG_GAMEOBJECT_QUERY: u32 = 94;
    pub const CMSG_CREATURE_QUERY: u32 = 96;
    pub const CMSG_GROUP_INVITE: u32 = 110;
    pub const CMSG_GROUP_ACCEPT: u32 = 114;
    pub const CMSG_GROUP_DECLINE: u32 = 115;
    pub const CMSG_MESSAGECHAT: u32 = 149;
    pub const CMSG_JOIN_CHANNEL: u32 = 151;
    pub const CMSG_USE_ITEM: u32 = 171;
    pub const CMSG_OPEN_ITEM: u32 = 172;
    pub const CMSG_GAMEOBJ_USE: u32 = 177;
    pub const CMSG_EMOTE: u32 = 258;
    pub const CMSG_TEXT_EMOTE: u32 = 260;
    pub const CMSG_AUTOSTORE_LOOT_ITEM: u32 = 264;
    pub const CMSG_DESTROYITEM: u32 = 273;
    pub const CMSG_INITIATE_TRADE: u32 = 278;
    pub const CMSG_BEGIN_TRADE: u32 = 279;
    pub const CMSG_SET_TRADE_GOLD: u32 = 287;
    pub const CMSG_CAST_SPELL: u32 = 302;
    pub const CMSG_CANCEL_CAST: u32 = 303;
    pub const CMSG_SET_SELECTION: u32 = 317;
    pub const CMSG_LOOT_RELEASE: u32 = 351;
    pub const CMSG_SELL_ITEM: u32 = 416;
    pub const CMSG_BUY_ITEM: u32 = 418;
    pub const CMSG_PLAYED_TIME: u32 = 460;
    pub const CMSG_PING: u32 = 476;
    pub const CMSG_SETSHEATHED: u32 = 480;
    pub const CMSG_AUTH_SESSION: u32 = 493;
    pub const CMSG_SEND_MAIL: u32 = 568;
    pub const CMSG_GET_MAIL_LIST: u32 = 570;
    pub const CMSG_WARDEN_DATA: u32 = 743;
    pub const CMSG_REALM_SPLIT: u32 = 908;
    pub const CMSG_QUESTGIVER_STATUS_MULTIPLE_QUERY: u32 = 1047;
    pub const CMSG_GAMEOBJ_REPORT_USE: u32 = 1153;
    pub const CMSG_READY_FOR_ACCOUNT_DATA_TIMES: u32 = 1279;
    pub const SMSG_CHAR_ENUM: u16 = 59;
    pub const SMSG_LOGIN_SETTIMESPEED: u16 = 66;
    pub const SMSG_NAME_QUERY_RESPONSE: u16 = 81;
    pub const SMSG_ITEM_QUERY_SINGLE_RESPONSE: u16 = 88;
    pub const SMSG_GAMEOBJECT_QUERY_RESPONSE: u16 = 95;
    pub const SMSG_CREATURE_QUERY_RESPONSE: u16 = 97;
    pub const SMSG_GROUP_INVITE: u16 = 111;
    pub const SMSG_GROUP_LIST: u16 = 125;
    pub const SMSG_MESSAGECHAT: u16 = 150;
    pub const SMSG_UPDATE_OBJECT: u16 = 169;
    pub const SMSG_DESTROY_OBJECT: u16 = 170;
    pub const SMSG_GAMEOBJECT_CUSTOM_ANIM: u16 = 179;
    pub const SMSG_MONSTER_MOVE: u16 = 221;
    pub const SMSG_TUTORIAL_FLAGS: u16 = 253;
    pub const SMSG_EMOTE: u16 = 259;
    pub const SMSG_TEXT_EMOTE: u16 = 261;
    pub const SMSG_INVENTORY_CHANGE_FAILURE: u16 = 274;
    pub const SMSG_SET_PROFICIENCY: u16 = 295;
    pub const SMSG_INITIAL_SPELLS: u16 = 298;
    pub const SMSG_CAST_RESULT: u16 = 304;
    pub const SMSG_SPELL_START: u16 = 305;
    pub const SMSG_SPELL_GO: u16 = 306;
    pub const SMSG_SPELL_FAILURE: u16 = 307;
    pub const SMSG_CANCEL_COMBAT: u16 = 334;
    pub const SMSG_SPELLHEALLOG: u16 = 336;
    pub const SMSG_BINDPOINTUPDATE: u16 = 341;
    pub const SMSG_LOOT_RESPONSE: u16 = 352;
    pub const SMSG_LOOT_RELEASE_RESPONSE: u16 = 353;
    pub const SMSG_LOOT_REMOVED: u16 = 354;
    pub const SMSG_ITEM_PUSH_RESULT: u16 = 358;
    pub const SMSG_BUY_ITEM: u16 = 420;
    pub const SMSG_FISH_NOT_HOOKED: u16 = 456;
    pub const SMSG_PONG: u16 = 477;
    pub const SMSG_SPELL_DELAYED: u16 = 482;
    pub const SMSG_AUTH_CHALLENGE: u16 = 492;
    pub const SMSG_AUTH_RESPONSE: u16 = 494;
    pub const SMSG_COMPRESSED_UPDATE_OBJECT: u16 = 502;
    pub const SMSG_ACCOUNT_DATA_TIMES: u16 = 521;
    pub const SMSG_GAMEOBJECT_DESPAWN_ANIM: u16 = 533;
    pub const SMSG_LOGIN_VERIFY_WORLD: u16 = 566;
    pub const SMSG_SEND_MAIL_RESULT: u16 = 569;
    pub const SMSG_MAIL_LIST_RESULT: u16 = 571;
    pub const SMSG_SPELLLOGEXECUTE: u16 = 588;
    pub const SMSG_SET_PCT_SPELL_MODIFIER: u16 = 615;
    pub const SMSG_SET_FORCED_REACTIONS: u16 = 677;
    pub const SMSG_SPELL_FAILED_OTHER: u16 = 678;
    pub const SMSG_WARDEN_DATA: u16 = 742;
    pub const SMSG_ADDON_INFO: u16 = 751;
    pub const SMSG_EXPECTED_SPAM_RECORDS: u16 = 818;
    pub const SMSG_MOTD: u16 = 829;
    pub const SMSG_REALM_SPLIT: u16 = 907;
    pub const SMSG_FEATURE_SYSTEM_STATUS: u16 = 969;
    pub const SMSG_QUESTGIVER_STATUS_MULTIPLE: u16 = 1048;
    pub const SMSG_ACHIEVEMENT_EARNED: u16 = 1128;
    pub const SMSG_CRITERIA_UPDATE: u16 = 1130;
    pub const SMSG_SET_PHASE_SHIFT: u16 = 1148;
    pub const SMSG_POWER_UPDATE: u16 = 1152;
    pub const SMSG_AURA_UPDATE_ALL: u16 = 1173;
    pub const SMSG_AURA_UPDATE: u16 = 1174;
    pub const SMSG_CLIENTCACHE_VERSION: u16 = 1195;
    pub const SMSG_TALENT_UPDATE: u16 = 1216;
    pub const MSG_MOVE_START_FORWARD: u16 = 181;
    pub const MSG_MOVE_START_BACKWARD: u16 = 182;
    pub const MSG_MOVE_STOP: u16 = 183;
    pub const MSG_MOVE_START_STRAFE_LEFT: u16 = 184;
    pub const MSG_MOVE_START_STRAFE_RIGHT: u16 = 185;
    pub const MSG_MOVE_STOP_STRAFE: u16 = 186;
    pub const MSG_MOVE_JUMP: u16 = 187;
    pub const MSG_MOVE_START_TURN_LEFT: u16 = 188;
    pub const MSG_MOVE_START_TURN_RIGHT: u16 = 189;
    pub const MSG_MOVE_STOP_TURN: u16 = 190;
    pub const MSG_MOVE_START_PITCH_UP: u16 = 191;
    pub const MSG_MOVE_START_PITCH_DOWN: u16 = 192;
    pub const MSG_MOVE_STOP_PITCH: u16 = 193;
    pub const MSG_MOVE_FALL_LAND: u16 = 201;
    pub const MSG_MOVE_START_SWIM: u16 = 202;
    pub const MSG_MOVE_STOP_SWIM: u16 = 203;
    pub const MSG_MOVE_SET_FACING: u16 = 218;
    pub const MSG_MOVE_SET_PITCH: u16 = 219;
    pub const MSG_MOVE_WORLDPORT_ACK: u16 = 220;
    pub const MSG_MOVE_HEARTBEAT: u16 = 238;
    pub const MSG_SET_DUNGEON_DIFFICULTY: u16 = 809;
}

/// The name printed for a client opcode: the login opcodes are recognised by their
/// lowest byte alone, the world opcodes by their whole value, anything else is printed
/// in decimal.
pub open spec fn client_opcode_name(opcode: u32) -> Seq<char> {
    if opcode % 256 == Opcode::LOGIN_CHALLENGE {
        "LOGIN_CHALLENGE"@
    } else if opcode % 256 == Opcode::LOGIN_PROOF {
        "LOGIN_PROOF"@
    } else if opcode % 256 == Opcode::REALM_LIST {
        "REALM_LIST"@
    } else if opcode == Opcode::CMSG_CHAR_ENUM {
        "CMSG_CHAR_ENUM"@
    } else if opcode == Opcode::CMSG_PLAYER_LOGIN {
        "CMSG_PLAYER_LOGIN"@
    } else if opcode == Opcode::CMSG_LOGOUT_REQUEST {
        "CMSG_LOGOUT_REQUEST"@
    } else if opcode == Opcode::CMSG_NAME_QUERY {
        "CMSG_NAME_QUERY"@
    } else if opcode == Opcode::CMSG_ITEM_QUERY_SINGLE {
        "CMSG_ITEM_QUERY_SINGLE"@
    } else if opcode == Opcode::CMSG_GAMEOBJECT_QUERY {
        "CMSG_GAMEOBJECT_QUERY"@
    } else if opcode == Opcode::CMSG_CREATURE_QUERY {
        "CMSG_CREATURE_QUERY"@
    } else if opcode == Opcode::CMSG_GROUP_INVITE {
        "CMSG_GROUP_INVITE"@
    } else if opcode == Opcode::CMSG_GROUP_ACCEPT {
        "CMSG_GROUP_ACCEPT"@
    } else if opcode == Opcode::CMSG_GROUP_DECLINE {
        "CMSG_GROUP_DECLINE"@
    } else if opcode == Opcode::CMSG_MESSAGECHAT {
        "CMSG_MESSAGECHAT"@
    } else if opcode == Opcode::CMSG_JOIN_CHANNEL {
        "CMSG_JOIN_CHANNEL"@
    } else if opcode == Opcode::CMSG_USE_ITEM {
        "CMSG_USE_ITEM"@
    } else if opcode == Opcode::CMSG_OPEN_ITEM {
        "CMSG_OPEN_ITEM"@
    } else if opcode == Opcode::CMSG_GAMEOBJ_USE {
        "CMSG_GAMEOBJ_USE"@
    } else if opcode == Opcode::CMSG_EMOTE {
        "CMSG_EMOTE"@
    } else if opcode == Opcode::CMSG_TEXT_EMOTE {
        "CMSG_TEXT_EMOTE"@
    } else if opcode == Opcode::CMSG_AUTOSTORE_LOOT_ITEM {
        "CMSG_AUTOSTORE_LOOT_ITEM"@
    } else if opcode == Opcode::CMSG_DESTROYITEM {
        "CMSG_DESTROYITEM"@
    } else if opcode == Opcode::CMSG_INITIATE_TRADE {
        "CMSG_INITIATE_TRADE"@
    } else if opcode == Opcode::CMSG_BEGIN_TRADE {
        "CMSG_BEGIN_TRADE"@
    } else if opcode == Opcode::CMSG_SET_TRADE_GOLD {
        "CMSG_SET_TRADE_GOLD"@
    } else if opcode == Opcode::CMSG_CAST_SPELL {
        "CMSG_CAST_SPELL"@
    } else if opcode == Opcode::CMSG_CANCEL_CAST {
        "CMSG_CANCEL_CAST"@
    } else if opcode == Opcode::CMSG_SET_SELECTION {
        "CMSG_SET_SELECTION"@
    } else if opcode == Opcode::CMSG_LOOT_RELEASE {
        "CMSG_LOOT_RELEASE"@
    } else if opcode == Opcode::CMSG_SELL_ITEM {
        "CMSG_SELL_ITEM"@
    } else if opcode == Opcode::CMSG_BUY_ITEM {
        "CMSG_BUY_ITEM"@
    } else if opcode == Opcode::CMSG_PLAYED_TIME {
        "CMSG_PLAYED_TIME"@
    } else if opcode == Opcode::CMSG_PING {
        "CMSG_PING"@
    } else if opcode == Opcode::CMSG_SETSHEATHED {
        "CMSG_SETSHEATHED"@
    } else if opcode == Opcode::CMSG_AUTH_SESSION {
        "CMSG_AUTH_SESSION"@
    } else if opcode == Opcode::CMSG_SEND_MAIL {
        "CMSG_SEND_MAIL"@
    } else if opcode == Opcode::CMSG_GET_MAIL_LIST {
        "CMSG_GET_MAIL_LIST"@
    } else if opcode == Opcode::CMSG_WARDEN_DATA {
        "CMSG_WARDEN_DATA"@
    } else if opcode == Opcode::CMSG_REALM_SPLIT {
        "CMSG_REALM_SPLIT"@
    } else if opcode == Opcode::CMSG_QUESTGIVER_STATUS_MULTIPLE_QUERY {
        "CMSG_QUESTGIVER_STATUS_MULTIPLE_QUERY"@
    } else if opcode == Opcode::CMSG_GAMEOBJ_REPORT_USE {
        "CMSG_GAMEOBJ_REPORT_USE"@
    } else if opcode == Opcode::CMSG_READY_FOR_ACCOUNT_DATA_TIMES {
        "CMSG_READY_FOR_ACCOUNT_DATA_TIMES"@
    } else {
        decimal_chars(opcode as nat)
    }
}

/// The name printed for a server opcode, with the same rules as `client_opcode_name`.
pub open spec fn server_opcode_name(opcode: u16) -> Seq<char> {
    if opcode % 256 == Opcode::LOGIN_CHALLENGE {
        "LOGIN_CHALLENGE"@
    } else if opcode % 256 == Opcode::LOGIN_PROOF {
        "LOGIN_PROOF"@
    } else if opcode % 256 == Opcode::REALM_LIST {
        "REALM_LIST"@
    } else if opcode == Opcode::SMSG_CHAR_ENUM {
        "SMSG_CHAR_ENUM"@
    } else if opcode == Opcode::SMSG_LOGIN_SETTIMESPEED {
        "SMSG_LOGIN_SETTIMESPEED"@
    } else if opcode == Opcode::SMSG_NAME_QUERY_RESPONSE {
        "SMSG_NAME_QUERY_RESPONSE"@
    } else if opcode == Opcode::SMSG_ITEM_QUERY_SINGLE_RESPONSE {
        "SMSG_ITEM_QUERY_SINGLE_RESPONSE"@
    } else if opcode == Opcode::SMSG_GAMEOBJECT_QUERY_RESPONSE {
        "SMSG_GAMEOBJECT_QUERY_RESPONSE"@
    } else if opcode == Opcode::SMSG_CREATURE_QUERY_RESPONSE {
        "SMSG_CREATURE_QUERY_RESPONSE"@
    } else if opcode == Opcode::SMSG_GROUP_INVITE {
        "SMSG_GROUP_INVITE"@
    } else if opcode == Opcode::SMSG_GROUP_LIST {
        "SMSG_GROUP_LIST"@
    } else if opcode == Opcode::SMSG_MESSAGECHAT {
        "SMSG_MESSAGECHAT"@
    } else if opcode == Opcode::SMSG_UPDATE_OBJECT {
        "SMSG_UPDATE_OBJECT"@
    } else if opcode == Opcode::SMSG_DESTROY_OBJECT {
        "SMSG_DESTROY_OBJECT"@
    } else if opcode == Opcode::SMSG_GAMEOBJECT_CUSTOM_ANIM {
        "SMSG_GAMEOBJECT_CUSTOM_ANIM"@
    } else if opcode == Opcode::SMSG_MONSTER_MOVE {
        "SMSG_MONSTER_MOVE"@
    } else if opcode == Opcode::SMSG_TUTORIAL_FLAGS {
        "SMSG_TUTORIAL_FLAGS"@
    } else if opcode == Opcode::SMSG_EMOTE {
        "SMSG_EMOTE"@
    } else if opcode == Opcode::SMSG_TEXT_EMOTE {
        "SMSG_TEXT_EMOTE"@
    } else if opcode == Opcode::SMSG_INVENTORY_CHANGE_FAILURE {
        "SMSG_INVENTORY_CHANGE_FAILURE"@
    } else if opcode == Opcode::SMSG_SET_PROFICIENCY {
        "SMSG_SET_PROFICIENCY"@
    } else if opcode == Opcode::SMSG_INITIAL_SPELLS {
        "SMSG_INITIAL_SPELLS"@
    } else if opcode == Opcode::SMSG_CAST_RESULT {
        "SMSG_CAST_RESULT"@
    } else if opcode == Opcode::SMSG_SPELL_START {
        "SMSG_SPELL_START"@
    } else if opcode == Opcode::SMSG_SPELL_GO {
        "SMSG_SPELL_GO"@
    } else if opcode == Opcode::SMSG_SPELL_FAILURE {
        "SMSG_SPELL_FAILURE"@
    } else if opcode == Opcode::SMSG_CANCEL_COMBAT {
        "SMSG_CANCEL_COMBAT"@
    } else if opcode == Opcode::SMSG_SPELLHEALLOG {
        "SMSG_SPELLHEALLOG"@
    } else if opcode == Opcode::SMSG_BINDPOINTUPDATE {
        "SMSG_BINDPOINTUPDATE"@
    } else if opcode == Opcode::SMSG_LOOT_RESPONSE {
        "SMSG_LOOT_RESPONSE"@
    } else if opcode == Opcode::SMSG_LOOT_RELEASE_RESPONSE {
        "SMSG_LOOT_RELEASE_RESPONSE"@
    } else if opcode == Opcode::SMSG_LOOT_REMOVED {
        "SMSG_LOOT_REMOVED"@
    } else if opcode == Opcode::SMSG_ITEM_PUSH_RESULT {
        "SMSG_ITEM_PUSH_RESULT"@
    } else if opcode == Opcode::SMSG_BUY_ITEM {
        "SMSG_BUY_ITEM"@
    } else if opcode == Opcode::SMSG_FISH_NOT_HOOKED {
        "SMSG_FISH_NOT_HOOKED"@
    } else if opcode == Opcode::SMSG_PONG {
        "SMSG_PONG"@
    } else if opcode == Opcode::SMSG_SPELL_DELAYED {
        "SMSG_SPELL_DELAYED"@
    } else if opcode == Opcode::SMSG_AUTH_CHALLENGE {
        "SMSG_AUTH_CHALLENGE"@
    } else if opcode == Opcode::SMSG_AUTH_RESPONSE {
        "SMSG_AUTH_RESPONSE"@
    } else if opcode == Opcode::SMSG_COMPRESSED_UPDATE_OBJECT {
        "SMSG_COMPRESSED_UPDATE_OBJECT"@
    } else if opcode == Opcode::SMSG_ACCOUNT_DATA_TIMES {
        "SMSG_ACCOUNT_DATA_TIMES"@
    } else if opcode == Opcode::SMSG_GAMEOBJECT_DESPAWN_ANIM {
        "SMSG_GAMEOBJECT_DESPAWN_ANIM"@
    } else if opcode == Opcode::SMSG_LOGIN_VERIFY_WORLD {
        "SMSG_LOGIN_VERIFY_WORLD"@
    } else if opcode == Opcode::SMSG_SEND_MAIL_RESULT {
        "SMSG_SEND_MAIL_RESULT"@
    } else if opcode == Opcode::SMSG_MAIL_LIST_RESULT {
        "SMSG_MAIL_LIST_RESULT"@
    } else if opcode == Opcode::SMSG_SPELLLOGEXECUTE {
        "SMSG_SPELLLOGEXECUTE"@
    } else if opcode == Opcode::SMSG_SET_PCT_SPELL_MODIFIER {
        "SMSG_SET_PCT_SPELL_MODIFIER"@
    } else if opcode == Opcode::SMSG_SET_FORCED_REACTIONS {
        "SMSG_SET_FORCED_REACTIONS"@
    } else if opcode == Opcode::SMSG_SPELL_FAILED_OTHER {
        "SMSG_SPELL_FAILED_OTHER"@
    } else if opcode == Opcode::SMSG_WARDEN_DATA {
        "SMSG_WARDEN_DATA"@
    } else if opcode == Opcode::SMSG_ADDON_INFO {
        "SMSG_ADDON_INFO"@
    } else if opcode == Opcode::SMSG_EXPECTED_SPAM_RECORDS {
        "SMSG_EXPECTED_SPAM_RECORDS"@
    } else if opcode == Opcode::SMSG_MOTD {
        "SMSG_MOTD"@
    } else if opcode == Opcode::SMSG_REALM_SPLIT {
        "SMSG_REALM_SPLIT"@
    } else if opcode == Opcode::SMSG_FEATURE_SYSTEM_STATUS {
        "SMSG_FEATURE_SYSTEM_STATUS"@
    } else if opcode == Opcode::SMSG_QUESTGIVER_STATUS_MULTIPLE {
        "SMSG_QUESTGIVER_STATUS_MULTIPLE"@
    } else if opcode == Opcode::SMSG_ACHIEVEMENT_EARNED {
        "SMSG_ACHIEVEMENT_EARNED"@
    } else if opcode == Opcode::SMSG_CRITERIA_UPDATE {
        "SMSG_CRITERIA_UPDATE"@
    } else if opcode == Opcode::SMSG_SET_PHASE_SHIFT {
        "SMSG_SET_PHASE_SHIFT"@
    } else if opcode == Opcode::SMSG_POWER_UPDATE {
        "SMSG_POWER_UPDATE"@
    } else if opcode == Opcode::SMSG_AURA_UPDATE_ALL {
        "SMSG_AURA_UPDATE_ALL"@
    } else if opcode == Opcode::SMSG_AURA_UPDATE {
        "SMSG_AURA_UPDATE"@
    } else if opcode == Opcode::SMSG_CLIENTCACHE_VERSION {
        "SMSG_CLIENTCACHE_VERSION"@
    } else if opcode == Opcode::SMSG_TALENT_UPDATE {
        "SMSG_TALENT_UPDATE"@
    } else if opcode == Opcode::MSG_MOVE_START_FORWARD {
        "MSG_MOVE_START_FORWARD"@
    } else if opcode == Opcode::MSG_MOVE_START_BACKWARD {
        "MSG_MOVE_START_BACKWARD"@
    } else if opcode == Opcode::MSG_MOVE_STOP {
        "MSG_MOVE_STOP"@
    } else if opcode == Opcode::MSG_MOVE_START_STRAFE_LEFT {
        "MSG_MOVE_START_STRAFE_LEFT"@
    } else if opcode == Opcode::MSG_MOVE_START_STRAFE_RIGHT {
        "MSG_MOVE_START_STRAFE_RIGHT"@
    } else if opcode == Opcode::MSG_MOVE_STOP_STRAFE {
        "MSG_MOVE_STOP_STRAFE"@
    } else if opcode == Opcode::MSG_MOVE_JUMP {
        "MSG_MOVE_JUMP"@
    } else if opcode == Opcode::MSG_MOVE_START_TURN_LEFT {
        "MSG_MOVE_START_TURN_LEFT"@
    } else if opcode == Opcode::MSG_MOVE_START_TURN_RIGHT {
        "MSG_MOVE_START_TURN_RIGHT"@
    } else if opcode == Opcode::MSG_MOVE_STOP_TURN {
        "MSG_MOVE_STOP_TURN"@
    } else if opcode == Opcode::MSG_MOVE_START_PITCH_UP {
        "MSG_MOVE_START_PITCH_UP"@
    } else if opcode == Opcode::MSG_MOVE_START_PITCH_DOWN {
        "MSG_MOVE_START_PITCH_DOWN"@
    } else if opcode == Opcode::MSG_MOVE_STOP_PITCH {
        "MSG_MOVE_STOP_PITCH"@
    } else if opcode == Opcode::MSG_MOVE_FALL_LAND {
        "MSG_MOVE_FALL_LAND"@
    } else if opcode == Opcode::MSG_MOVE_START_SWIM {
        "MSG_MOVE_START_SWIM"@
    } else if opcode == Opcode::MSG_MOVE_STOP_SWIM {
        "MSG_MOVE_STOP_SWIM"@
    } else if opcode == Opcode::MSG_MOVE_SET_FACING {
        "MSG_MOVE_SET_FACING"@
    } else if opcode == Opcode::MSG_MOVE_SET_PITCH {
        "MSG_MOVE_SET_PITCH"@
    } else if opcode == Opcode::MSG_MOVE_WORLDPORT_ACK {
        "MSG_MOVE_WORLDPORT_ACK"@
    } else if opcode == Opcode::MSG_MOVE_HEARTBEAT {
        "MSG_MOVE_HEARTBEAT"@
    } else if opcode == Opcode::MSG_SET_DUNGEON_DIFFICULTY {
        "MSG_SET_DUNGEON_DIFFICULTY"@
    } else {
        decimal_chars(opcode as nat)
    }
}

/// The login opcodes are named by the low byte of an opcode alone.
pub proof fn lemma_login_names_by_low_byte(opcode: u32)
    requires
        opcode % 256 == Opcode::LOGIN_CHALLENGE as u32 || opcode % 256 == Opcode::LOGIN_PROOF as u32
            || opcode % 256 == Opcode::REALM_LIST as u32,
    ensures
        client_opcode_name(opcode) == client_opcode_name(opcode % 256),
        opcode < 65536 ==> server_opcode_name(opcode as u16) == client_opcode_name(opcode),
{
}

/// Every client opcode has a printable name: one of the table, or its number.
pub proof fn lemma_client_opcode_names_are_not_empty(opcode: u32)
    ensures
        client_opcode_name(opcode).len() > 0,
{
    if opcode % 256 == Opcode::LOGIN_CHALLENGE {
        reveal_strlit("LOGIN_CHALLENGE");
        assert(client_opcode_name(opcode).len() > 0);
    } else if opcode % 256 == Opcode::LOGIN_PROOF {
        reveal_strlit("LOGIN_PROOF");
        assert(client_opcode_name(opcode).len() > 0);
    } else if opcode % 256 == Opcode::REALM_LIST {
        reveal_strlit("REALM_LIST");
        assert(client_opcode_name(opcode).len() > 0);
    } else if opcode == Opcode::CMSG_CHAR_ENUM {
        reveal_strlit("CMSG_CHAR_ENUM");
        assert(client_opcode_name(opcode).len() > 0);
    } else if opcode == Opcode::CMSG_PLAYER_LOGIN {
        reveal_strlit("CMSG_PLAYER_LOGIN");
        assert(client_opcode_name(opcode).len() > 0);
    } else if opcode == Opcode::CMSG_LOGOUT_REQUEST {
        reveal_strlit("CMSG_LOGOUT_REQUEST");
        assert(client_opcode_name(opcode).len() > 0);
    } else if opcode == Opcode::CMSG_NAME_QUERY {
        reveal_strlit("CMSG_NAME_QUERY");
        assert(client_opcode_name(opcode).len() > 0);
    } else if opcode == Opcode::CMSG_ITEM_QUERY_SINGLE {
        reveal_strlit("CMSG_ITEM_QUERY_SINGLE");
        assert(client_opcode_name(opcode).len() > 0);
    } else if opcode == Opcode::CMSG_GAMEOBJECT_QUERY {
        reveal_strlit("CMSG_GAMEOBJECT_QUERY");
        assert(client_opcode_name(opcode).len() > 0);
    } else if opcode == Opcode::CMSG_CREATURE_QUERY {
        reveal_strlit("CMSG_CREATURE_QUERY");
        assert(client_opcode_name(opcode).len() > 0);
    } else if opcode == Opcode::CMSG_GROUP_INVITE {
        reveal_strlit("CMSG_GROUP_INVITE");
        assert(client_opcode_name(opcode).len() > 0);
    } else if opcode == Opcode::CMSG_GROUP_ACCEPT {
        reveal_strlit("CMSG_GROUP_ACCEPT");
        assert(client_opcode_name(opcode).len() > 0);
    } else if opcode == Opcode::CMSG_GROUP_DECLINE {
        reveal_strlit("CMSG_GROUP_DECLINE");
        assert(client_opcode_name(opcode).len() > 0);
    } else if opcode == Opcode::CMSG_MESSAGECHAT {
        reveal_strlit("CMSG_MESSAGECHAT");
        assert(client_opcode_name(opcode).len() > 0);
    } else if opcode == Opcode::CMSG_JOIN_CHANNEL {
        reveal_strlit("CMSG_JOIN_CHANNEL");
        assert(client_opcode_name(opcode).len() > 0);
    } else if opcode == Opcode::CMSG_USE_ITEM {
        reveal_strlit("CMSG_USE_ITEM");
        assert(client_opcode_name(opcode).len() > 0);
    } else if opcode == Opcode::CMSG_OPEN_ITEM {
        reveal_strlit("CMSG_OPEN_ITEM");
        assert(client_opcode_name(opcode).len() > 0);
    } else if opcode == Opcode::CMSG_GAMEOBJ_USE {
        reveal_strlit("CMSG_GAMEOBJ_USE");
        assert(client_opcode_name(opcode).len() > 0);
    } else if opcode == Opcode::CMSG_EMOTE {
        reveal_strlit("CMSG_EMOTE");
        assert(client_opcode_name(opcode).len() > 0);
    } else if opcode == Opcode::CMSG_TEXT_EMOTE {
        reveal_strlit("CMSG_TEXT_EMOTE");
        assert(client_opcode_name(opcode).len() > 0);
    } else if opcode == Opcode::CMSG_AUTOSTORE_LOOT_ITEM {
        reveal_strlit("CMSG_AUTOSTORE_LOOT_ITEM");
        assert(client_opcode_name(opcode).len() > 0);
    } else if opcode == Opcode::CMSG_DESTROYITEM {
        reveal_strlit("CMSG_DESTROYITEM");
        assert(client_opcode_name(opcode).len() > 0);
    } else if opcode == Opcode::CMSG_INITIATE_TRADE {
        reveal_strlit("CMSG_INITIATE_TRADE");
        assert(client_opcode_name(opcode).len() > 0);
    } else if opcode == Opcode::CMSG_BEGIN_TRADE {
        reveal_strlit("CMSG_BEGIN_TRADE");
        assert(client_opcode_name(opcode).len() > 0);
    } else if opcode == Opcode::CMSG_SET_TRADE_GOLD {
        reveal_strlit("CMSG_SET_TRADE_GOLD");
        assert(client_opcode_name(opcode).len() > 0);
    } else if opcode == Opcode::CMSG_CAST_SPELL {
        reveal_strlit("CMSG_CAST_SPELL");
        assert(client_opcode_name(opcode).len() > 0);
    } else if opcode == Opcode::CMSG_CANCEL_CAST {
        reveal_strlit("CMSG_CANCEL_CAST");
        assert(client_opcode_name(opcode).len() > 0);
    } else if opcode == Opcode::CMSG_SET_SELECTION {
        reveal_strlit("CMSG_SET_SELECTION");
        assert(client_opcode_name(opcode).len() > 0);
    } else if opcode == Opcode::CMSG_LOOT_RELEASE {
        reveal_strlit("CMSG_LOOT_RELEASE");
        assert(client_opcode_name(opcode).len() > 0);
    } else if opcode == Opcode::CMSG_SELL_ITEM {
        reveal_strlit("CMSG_SELL_ITEM");
        assert(client_opcode_name(opcode).len() > 0);
    } else if opcode == Opcode::CMSG_BUY_ITEM {
        reveal_strlit("CMSG_BUY_ITEM");
        assert(client_opcode_name(opcode).len() > 0);
    } else if opcode == Opcode::CMSG_PLAYED_TIME {
        reveal_strlit("CMSG_PLAYED_TIME");
        assert(client_opcode_name(opcode).len() > 0);
    } else if opcode == Opcode::CMSG_PING {
        reveal_strlit("CMSG_PING");
        assert(client_opcode_name(opcode).len() > 0);
    } else if opcode == Opcode::CMSG_SETSHEATHED {
        reveal_strlit("CMSG_SETSHEATHED");
        assert(client_opcode_name(opcode).len() > 0);
    } else if opcode == Opcode::CMSG_AUTH_SESSION {
        reveal_strlit("CMSG_AUTH_SESSION");
        assert(client_opcode_name(opcode).len() > 0);
    } else if opcode == Opcode::CMSG_SEND_MAIL {
        reveal_strlit("CMSG_SEND_MAIL");
        assert(client_opcode_name(opcode).len() > 0);
    } else if opcode == Opcode::CMSG_GET_MAIL_LIST {
        reveal_strlit("CMSG_GET_MAIL_LIST");
        assert(client_opcode_name(opcode).len() > 0);
    } else if opcode == Opcode::CMSG_WARDEN_DATA {
        reveal_strlit("CMSG_WARDEN_DATA");
        assert(client_opcode_name(opcode).len() > 0);
    } else if opcode == Opcode::CMSG_REALM_SPLIT {
        reveal_strlit("CMSG_REALM_SPLIT");
        assert(client_opcode_name(opcode).len() > 0);
    } else if opcode == Opcode::CMSG_QUESTGIVER_STATUS_MULTIPLE_QUERY {
        reveal_strlit("CMSG_QUESTGIVER_STATUS_MULTIPLE_QUERY");
        assert(client_opcode_name(opcode).len() > 0);
    } else if opcode == Opcode::CMSG_GAMEOBJ_REPORT_USE {
        reveal_strlit("CMSG_GAMEOBJ_REPORT_USE");
        assert(client_opcode_name(opcode).len() > 0);
    } else if opcode == Opcode::CMSG_READY_FOR_ACCOUNT_DATA_TIMES {
        reveal_strlit("CMSG_READY_FOR_ACCOUNT_DATA_TIMES");
        assert(client_opcode_name(opcode).len() > 0);
    }
}

/// Every server opcode has a printable name: one of the table, or its number.
pub proof fn lemma_server_opcode_names_are_not_empty(opcode: u16)
    ensures
        server_opcode_name(opcode).len() > 0,
{
    if opcode % 256 == Opcode::LOGIN_CHALLENGE {
        reveal_strlit("LOGIN_CHALLENGE");
        assert(server_opcode_name(opcode).len() > 0);
    } else if opcode % 256 == Opcode::LOGIN_PROOF {
        reveal_strlit("LOGIN_PROOF");
        assert(server_opcode_name(opcode).len() > 0);
    } else if opcode % 256 == Opcode::REALM_LIST {
        reveal_strlit("REALM_LIST");
        assert(server_opcode_name(opcode).len() > 0);
    } else if opcode == Opcode::SMSG_CHAR_ENUM {
        reveal_strlit("SMSG_CHAR_ENUM");
        assert(server_opcode_name(opcode).len() > 0);
    } else if opcode == Opcode::SMSG_LOGIN_SETTIMESPEED {
        reveal_strlit("SMSG_LOGIN_SETTIMESPEED");
        assert(server_opcode_name(opcode).len() > 0);
    } else if opcode == Opcode::SMSG_NAME_QUERY_RESPONSE {
        reveal_strlit("SMSG_NAME_QUERY_RESPONSE");
        assert(server_opcode_name(opcode).len() > 0);
    } else if opcode == Opcode::SMSG_ITEM_QUERY_SINGLE_RESPONSE {
        reveal_strlit("SMSG_ITEM_QUERY_SINGLE_RESPONSE");
        assert(server_opcode_name(opcode).len() > 0);
    } else if opcode == Opcode::SMSG_GAMEOBJECT_QUERY_RESPONSE {
        reveal_strlit("SMSG_GAMEOBJECT_QUERY_RESPONSE");
        assert(server_opcode_name(opcode).len() > 0);
    } else if opcode == Opcode::SMSG_CREATURE_QUERY_RESPONSE {
        reveal_strlit("SMSG_CREATURE_QUERY_RESPONSE");
        assert(server_opcode_name(opcode).len() > 0);
    } else if opcode == Opcode::SMSG_GROUP_INVITE {
        reveal_strlit("SMSG_GROUP_INVITE");
        assert(server_opcode_name(opcode).len() > 0);
    } else if opcode == Opcode::SMSG_GROUP_LIST {
        reveal_strlit("SMSG_GROUP_LIST");
        assert(server_opcode_name(opcode).len() > 0);
    } else if opcode == Opcode::SMSG_MESSAGECHAT {
        reveal_strlit("SMSG_MESSAGECHAT");
        assert(server_opcode_name(opcode).len() > 0);
    } else if opcode == Opcode::SMSG_UPDATE_OBJECT {
        reveal_strlit("SMSG_UPDATE_OBJECT");
        assert(server_opcode_name(opcode).len() > 0);
    } else if opcode == Opcode::SMSG_DESTROY_OBJECT {
        reveal_strlit("SMSG_DESTROY_OBJECT");
        assert(server_opcode_name(opcode).len() > 0);
    } else if opcode == Opcode::SMSG_GAMEOBJECT_CUSTOM_ANIM {
        reveal_strlit("SMSG_GAMEOBJECT_CUSTOM_ANIM");
        assert(server_opcode_name(opcode).len() > 0);
    } else if opcode == Opcode::SMSG_MONSTER_MOVE {
        reveal_strlit("SMSG_MONSTER_MOVE");
        assert(server_opcode_name(opcode).len() > 0);
    } else if opcode == Opcode::SMSG_TUTORIAL_FLAGS {
        reveal_strlit("SMSG_TUTORIAL_FLAGS");
        assert(server_opcode_name(opcode).len() > 0);
    } else if opcode == Opcode::SMSG_EMOTE {
        reveal_strlit("SMSG_EMOTE");
        assert(server_opcode_name(opcode).len() > 0);
    } else if opcode == Opcode::SMSG_TEXT_EMOTE {
        reveal_strlit("SMSG_TEXT_EMOTE");
        assert(server_opcode_name(opcode).len() > 0);
    } else if opcode == Opcode::SMSG_INVENTORY_CHANGE_FAILURE {
        reveal_strlit("SMSG_INVENTORY_CHANGE_FAILURE");
        assert(server_opcode_name(opcode).len() > 0);
    } else if opcode == Opcode::SMSG_SET_PROFICIENCY {
        reveal_strlit("SMSG_SET_PROFICIENCY");
        assert(server_opcode_name(opcode).len() > 0);
    } else if opcode == Opcode::SMSG_INITIAL_SPELLS {
        reveal_strlit("SMSG_INITIAL_SPELLS");
        assert(server_opcode_name(opcode).len() > 0);
    } else if opcode == Opcode::SMSG_CAST_RESULT {
        reveal_strlit("SMSG_CAST_RESULT");
        assert(server_opcode_name(opcode).len() > 0);
    } else if opcode == Opcode::SMSG_SPELL_START {
        reveal_strlit("SMSG_SPELL_START");
        assert(server_opcode_name(opcode).len() > 0);
    } else if opcode == Opcode::SMSG_SPELL_GO {
        reveal_strlit("SMSG_SPELL_GO");
        assert(server_opcode_name(opcode).len() > 0);
    } else if opcode == Opcode::SMSG_SPELL_FAILURE {
        reveal_strlit("SMSG_SPELL_FAILURE");
        assert(server_opcode_name(opcode).len() > 0);
    } else if opcode == Opcode::SMSG_CANCEL_COMBAT {
        reveal_strlit("SMSG_CANCEL_COMBAT");
        assert(server_opcode_name(opcode).len() > 0);
    } else if opcode == Opcode::SMSG_SPELLHEALLOG {
        reveal_strlit("SMSG_SPELLHEALLOG");
        assert(server_opcode_name(opcode).len() > 0);
    } else if opcode == Opcode::SMSG_BINDPOINTUPDATE {
        reveal_strlit("SMSG_BINDPOINTUPDATE");
        assert(server_opcode_name(opcode).len() > 0);
    } else if opcode == Opcode::SMSG_LOOT_RESPONSE {
        reveal_strlit("SMSG_LOOT_RESPONSE");
        assert(server_opcode_name(opcode).len() > 0);
    } else if opcode == Opcode::SMSG_LOOT_RELEASE_RESPONSE {
        reveal_strlit("SMSG_LOOT_RELEASE_RESPONSE");
        assert(server_opcode_name(opcode).len() > 0);
    } else if opcode == Opcode::SMSG_LOOT_REMOVED {
        reveal_strlit("SMSG_LOOT_REMOVED");
        assert(server_opcode_name(opcode).len() > 0);
    } else if opcode == Opcode::SMSG_ITEM_PUSH_RESULT {
        reveal_strlit("SMSG_ITEM_PUSH_RESULT");
        assert(server_opcode_name(opcode).len() > 0);
    } else if opcode == Opcode::SMSG_BUY_ITEM {
        reveal_strlit("SMSG_BUY_ITEM");
        assert(server_opcode_name(opcode).len() > 0);
    } else if opcode == Opcode::SMSG_FISH_NOT_HOOKED {
        reveal_strlit("SMSG_FISH_NOT_HOOKED");
        assert(server_opcode_name(opcode).len() > 0);
    } else if opcode == Opcode::SMSG_PONG {
        reveal_strlit("SMSG_PONG");
        assert(server_opcode_name(opcode).len() > 0);
    } else if opcode == Opcode::SMSG_SPELL_DELAYED {
        reveal_strlit("SMSG_SPELL_DELAYED");
        assert(server_opcode_name(opcode).len() > 0);
    } else if opcode == Opcode::SMSG_AUTH_CHALLENGE {
        reveal_strlit("SMSG_AUTH_CHALLENGE");
        assert(server_opcode_name(opcode).len() > 0);
    } else if opcode == Opcode::SMSG_AUTH_RESPONSE {
        reveal_strlit("SMSG_AUTH_RESPONSE");
        assert(server_opcode_name(opcode).len() > 0);
    } else if opcode == Opcode::SMSG_COMPRESSED_UPDATE_OBJECT {
        reveal_strlit("SMSG_COMPRESSED_UPDATE_OBJECT");
        assert(server_opcode_name(opcode).len() > 0);
    } else if opcode == Opcode::SMSG_ACCOUNT_DATA_TIMES {
        reveal_strlit("SMSG_ACCOUNT_DATA_TIMES");
        assert(server_opcode_name(opcode).len() > 0);
    } else if opcode == Opcode::SMSG_GAMEOBJECT_DESPAWN_ANIM {
        reveal_strlit("SMSG_GAMEOBJECT_DESPAWN_ANIM");
        assert(server_opcode_name(opcode).len() > 0);
    } else if opcode == Opcode::SMSG_LOGIN_VERIFY_WORLD {
        reveal_strlit("SMSG_LOGIN_VERIFY_WORLD");
        assert(server_opcode_name(opcode).len() > 0);
    } else if opcode == Opcode::SMSG_SEND_MAIL_RESULT {
        reveal_strlit("SMSG_SEND_MAIL_RESULT");
        assert(server_opcode_name(opcode).len() > 0);
    } else if opcode == Opcode::SMSG_MAIL_LIST_RESULT {
        reveal_strlit("SMSG_MAIL_LIST_RESULT");
        assert(server_opcode_name(opcode).len() > 0);
    } else if opcode == Opcode::SMSG_SPELLLOGEXECUTE {
        reveal_strlit("SMSG_SPELLLOGEXECUTE");
        assert(server_opcode_name(opcode).len() > 0);
    } else if opcode == Opcode::SMSG_SET_PCT_SPELL_MODIFIER {
        reveal_strlit("SMSG_SET_PCT_SPELL_MODIFIER");
        assert(server_opcode_name(opcode).len() > 0);
    } else if opcode == Opcode::SMSG_SET_FORCED_REACTIONS {
        reveal_strlit("SMSG_SET_FORCED_REACTIONS");
        assert(server_opcode_name(opcode).len() > 0);
    } else if opcode == Opcode::SMSG_SPELL_FAILED_OTHER {
        reveal_strlit("SMSG_SPELL_FAILED_OTHER");
        assert(server_opcode_name(opcode).len() > 0);
    } else if opcode == Opcode::SMSG_WARDEN_DATA {
        reveal_strlit("SMSG_WARDEN_DATA");
        assert(server_opcode_name(opcode).len() > 0);
    } else if opcode == Opcode::SMSG_ADDON_INFO {
        reveal_strlit("SMSG_ADDON_INFO");
        assert(server_opcode_name(opcode).len() > 0);
    } else if opcode == Opcode::SMSG_EXPECTED_SPAM_RECORDS {
        reveal_strlit("SMSG_EXPECTED_SPAM_RECORDS");
        assert(server_opcode_name(opcode).len() > 0);
    } else if opcode == Opcode::SMSG_MOTD {
        reveal_strlit("SMSG_MOTD");
        assert(server_opcode_name(opcode).len() > 0);
    } else if opcode == Opcode::SMSG_REALM_SPLIT {
        reveal_strlit("SMSG_REALM_SPLIT");
        assert(server_opcode_name(opcode).len() > 0);
    } else if opcode == Opcode::SMSG_FEATURE_SYSTEM_STATUS {
        reveal_strlit("SMSG_FEATURE_SYSTEM_STATUS");
        assert(server_opcode_name(opcode).len() > 0);
    } else if opcode == Opcode::SMSG_QUESTGIVER_STATUS_MULTIPLE {
        reveal_strlit("SMSG_QUESTGIVER_STATUS_MULTIPLE");
        assert(server_opcode_name(opcode).len() > 0);
    } else if opcode == Opcode::SMSG_ACHIEVEMENT_EARNED {
        reveal_strlit("SMSG_ACHIEVEMENT_EARNED");
        assert(server_opcode_name(opcode).len() > 0);
    } else if opcode == Opcode::SMSG_CRITERIA_UPDATE {
        reveal_strlit("SMSG_CRITERIA_UPDATE");
        assert(server_opcode_name(opcode).len() > 0);
    } else if opcode == Opcode::SMSG_SET_PHASE_SHIFT {
        reveal_strlit("SMSG_SET_PHASE_SHIFT");
        assert(server_opcode_name(opcode).len() > 0);
    } else if opcode == Opcode::SMSG_POWER_UPDATE {
        reveal_strlit("SMSG_POWER_UPDATE");
        assert(server_opcode_name(opcode).len() > 0);
    } else if opcode == Opcode::SMSG_AURA_UPDATE_ALL {
        reveal_strlit("SMSG_AURA_UPDATE_ALL");
        assert(server_opcode_name(opcode).len() > 0);
    } else if opcode == Opcode::SMSG_AURA_UPDATE {
        reveal_strlit("SMSG_AURA_UPDATE");
        assert(server_opcode_name(opcode).len() > 0);
    } else if opcode == Opcode::SMSG_CLIENTCACHE_VERSION {
        reveal_strlit("SMSG_CLIENTCACHE_VERSION");
        assert(server_opcode_name(opcode).len() > 0);
    } else if opcode == Opcode::SMSG_TALENT_UPDATE {
        reveal_strlit("SMSG_TALENT_UPDATE");
        assert(server_opcode_name(opcode).len() > 0);
    } else if opcode == Opcode::MSG_MOVE_START_FORWARD {
        reveal_strlit("MSG_MOVE_START_FORWARD");
        assert(server_opcode_name(opcode).len() > 0);
    } else if opcode == Opcode::MSG_MOVE_START_BACKWARD {
        reveal_strlit("MSG_MOVE_START_BACKWARD");
        assert(server_opcode_name(opcode).len() > 0);
    } else if opcode == Opcode::MSG_MOVE_STOP {
        reveal_strlit("MSG_MOVE_STOP");
        assert(server_opcode_name(opcode).len() > 0);
    } else if opcode == Opcode::MSG_MOVE_START_STRAFE_LEFT {
        reveal_strlit("MSG_MOVE_START_STRAFE_LEFT");
        assert(server_opcode_name(opcode).len() > 0);
    } else if opcode == Opcode::MSG_MOVE_START_STRAFE_RIGHT {
        reveal_strlit("MSG_MOVE_START_STRAFE_RIGHT");
        assert(server_opcode_name(opcode).len() > 0);
    } else if opcode == Opcode::MSG_MOVE_STOP_STRAFE {
        reveal_strlit("MSG_MOVE_STOP_STRAFE");
        assert(server_opcode_name(opcode).len() > 0);
    } else if opcode == Opcode::MSG_MOVE_JUMP {
        reveal_strlit("MSG_MOVE_JUMP");
        assert(server_opcode_name(opcode).len() > 0);
    } else if opcode == Opcode::MSG_MOVE_START_TURN_LEFT {
        reveal_strlit("MSG_MOVE_START_TURN_LEFT");
        assert(server_opcode_name(opcode).len() > 0);
    } else if opcode == Opcode::MSG_MOVE_START_TURN_RIGHT {
        reveal_strlit("MSG_MOVE_START_TURN_RIGHT");
        assert(server_opcode_name(opcode).len() > 0);
    } else if opcode == Opcode::MSG_MOVE_STOP_TURN {
        reveal_strlit("MSG_MOVE_STOP_TURN");
        assert(server_opcode_name(opcode).len() > 0);
    } else if opcode == Opcode::MSG_MOVE_START_PITCH_UP {
        reveal_strlit("MSG_MOVE_START_PITCH_UP");
        assert(server_opcode_name(opcode).len() > 0);
    } else if opcode == Opcode::MSG_MOVE_START_PITCH_DOWN {
        reveal_strlit("MSG_MOVE_START_PITCH_DOWN");
        assert(server_opcode_name(opcode).len() > 0);
    } else if opcode == Opcode::MSG_MOVE_STOP_PITCH {
        reveal_strlit("MSG_MOVE_STOP_PITCH");
        assert(server_opcode_name(opcode).len() > 0);
    } else if opcode == Opcode::MSG_MOVE_FALL_LAND {
        reveal_strlit("MSG_MOVE_FALL_LAND");
        assert(server_opcode_name(opcode).len() > 0);
    } else if opcode == Opcode::MSG_MOVE_START_SWIM {
        reveal_strlit("MSG_MOVE_START_SWIM");
        assert(server_opcode_name(opcode).len() > 0);
    } else if opcode == Opcode::MSG_MOVE_STOP_SWIM {
        reveal_strlit("MSG_MOVE_STOP_SWIM");
        assert(server_opcode_name(opcode).len() > 0);
    } else if opcode == Opcode::MSG_MOVE_SET_FACING {
        reveal_strlit("MSG_MOVE_SET_FACING");
        assert(server_opcode_name(opcode).len() > 0);
    } else if opcode == Opcode::MSG_MOVE_SET_PITCH {
        reveal_strlit("MSG_MOVE_SET_PITCH");
        assert(server_opcode_name(opcode).len() > 0);
    } else if opcode == Opcode::MSG_MOVE_WORLDPORT_ACK {
        reveal_strlit("MSG_MOVE_WORLDPORT_ACK");
        assert(server_opcode_name(opcode).len() > 0);
    } else if opcode == Opcode::MSG_MOVE_HEARTBEAT {
        reveal_strlit("MSG_MOVE_HEARTBEAT");
        assert(server_opcode_name(opcode).len() > 0);
    } else if opcode == Opcode::MSG_SET_DUNGEON_DIFFICULTY {
        reveal_strlit("MSG_SET_DUNGEON_DIFFICULTY");
        assert(server_opcode_name(opcode).len() > 0);
    }
}

impl Opcode {
    /// Printable name of an opcode sent by the client.
    pub fn get_client_opcode_name(opcode: u32) -> (name: String)
        ensures
            name@ == client_opcode_name(opcode),
    {
        if opcode % 256 == Opcode::LOGIN_CHALLENGE as u32 {
            return "LOGIN_CHALLENGE".to_string();
        } else if opcode % 256 == Opcode::LOGIN_PROOF as u32 {
            return "LOGIN_PROOF".to_string();
        } else if opcode % 256 == Opcode::REALM_LIST as u32 {
            return "REALM_LIST".to_string();
        }

        if opcode == Opcode::CMSG_CHAR_ENUM {
            "CMSG_CHAR_ENUM".to_string()
        } else if opcode == Opcode::CMSG_PLAYER_LOGIN {
            "CMSG_PLAYER_LOGIN".to_string()
        } else if opcode == Opcode::CMSG_LOGOUT_REQUEST {
            "CMSG_LOGOUT_REQUEST".to_string()
        } else if opcode == Opcode::CMSG_NAME_QUERY {
            "CMSG_NAME_QUERY".to_string()
        } else if opcode == Opcode::CMSG_ITEM_QUERY_SINGLE {
            "CMSG_ITEM_QUERY_SINGLE".to_string()
        } else if opcode == Opcode::CMSG_GAMEOBJECT_QUERY {
            "CMSG_GAMEOBJECT_QUERY".to_string()
        } else if opcode == Opcode::CMSG_CREATURE_QUERY {
            "CMSG_CREATURE_QUERY".to_string()
        } else if opcode == Opcode::CMSG_GROUP_INVITE {
            "CMSG_GROUP_INVITE".to_string()
        } else if opcode == Opcode::CMSG_GROUP_ACCEPT {
            "CMSG_GROUP_ACCEPT".to_string()
        } else if opcode == Opcode::CMSG_GROUP_DECLINE {
            "CMSG_GROUP_DECLINE".to_string()
        } else if opcode == Opcode::CMSG_MESSAGECHAT {
            "CMSG_MESSAGECHAT".to_string()
        } else if opcode == Opcode::CMSG_JOIN_CHANNEL {
            "CMSG_JOIN_CHANNEL".to_string()
        } else if opcode == Opcode::CMSG_USE_ITEM {
            "CMSG_USE_ITEM".to_string()
        } else if opcode == Opcode::CMSG_OPEN_ITEM {
            "CMSG_OPEN_ITEM".to_string()
        } else if opcode == Opcode::CMSG_GAMEOBJ_USE {
            "CMSG_GAMEOBJ_USE".to_string()
        } else if opcode == Opcode::CMSG_EMOTE {
            "CMSG_EMOTE".to_string()
        } else if opcode == Opcode::CMSG_TEXT_EMOTE {
            "CMSG_TEXT_EMOTE".to_string()
        } else if opcode == Opcode::CMSG_AUTOSTORE_LOOT_ITEM {
            "CMSG_AUTOSTORE_LOOT_ITEM".to_string()
        } else if opcode == Opcode::CMSG_DESTROYITEM {
            "CMSG_DESTROYITEM".to_string()
        } else if opcode == Opcode::CMSG_INITIATE_TRADE {
            "CMSG_INITIATE_TRADE".to_string()
        } else if opcode == Opcode::CMSG_BEGIN_TRADE {
            "CMSG_BEGIN_TRADE".to_string()
        } else if opcode == Opcode::CMSG_SET_TRADE_GOLD {
            "CMSG_SET_TRADE_GOLD".to_string()
        } else if opcode == Opcode::CMSG_CAST_SPELL {
            "CMSG_CAST_SPELL".to_string()
        } else if opcode == Opcode::CMSG_CANCEL_CAST {
            "CMSG_CANCEL_CAST".to_string()
        } else if opcode == Opcode::CMSG_SET_SELECTION {
            "CMSG_SET_SELECTION".to_string()
        } else if opcode == Opcode::CMSG_LOOT_RELEASE {
            "CMSG_LOOT_RELEASE".to_string()
        } else if opcode == Opcode::CMSG_SELL_ITEM {
            "CMSG_SELL_ITEM".to_string()
        } else if opcode == Opcode::CMSG_BUY_ITEM {
            "CMSG_BUY_ITEM".to_string()
        } else if opcode == Opcode::CMSG_PLAYED_TIME {
            "CMSG_PLAYED_TIME".to_string()
        } else if opcode == Opcode::CMSG_PING {
            "CMSG_PING".to_string()
        } else if opcode == Opcode::CMSG_SETSHEATHED {
            "CMSG_SETSHEATHED".to_string()
        } else if opcode == Opcode::CMSG_AUTH_SESSION {
            "CMSG_AUTH_SESSION".to_string()
        } else if opcode == Opcode::CMSG_SEND_MAIL {
            "CMSG_SEND_MAIL".to_string()
        } else if opcode == Opcode::CMSG_GET_MAIL_LIST {
            "CMSG_GET_MAIL_LIST".to_string()
        } else if opcode == Opcode::CMSG_WARDEN_DATA {
            "CMSG_WARDEN_DATA".to_string()
        } else if opcode == Opcode::CMSG_REALM_SPLIT {
            "CMSG_REALM_SPLIT".to_string()
        } else if opcode == Opcode::CMSG_QUESTGIVER_STATUS_MULTIPLE_QUERY {
            "CMSG_QUESTGIVER_STATUS_MULTIPLE_QUERY".to_string()
        } else if opcode == Opcode::CMSG_GAMEOBJ_REPORT_USE {
            "CMSG_GAMEOBJ_REPORT_USE".to_string()
        } else if opcode == Opcode::CMSG_READY_FOR_ACCOUNT_DATA_TIMES {
            "CMSG_READY_FOR_ACCOUNT_DATA_TIMES".to_string()
        } else {
            decimal_string(opcode as u64)
        }
    }

    /// Printable name of an opcode sent by the server.
    pub fn get_server_opcode_name(opcode: u16) -> (name: String)
        ensures
            name@ == server_opcode_name(opcode),
    {
        if opcode % 256 == Opcode::LOGIN_CHALLENGE as u16 {
            return "LOGIN_CHALLENGE".to_string();
        } else if opcode % 256 == Opcode::LOGIN_PROOF as u16 {
            return "LOGIN_PROOF".to_string();
        } else if opcode % 256 == Opcode::REALM_LIST as u16 {
            return "REALM_LIST".to_string();
        }

        if opcode == Opcode::SMSG_CHAR_ENUM {
            "SMSG_CHAR_ENUM".to_string()
        } else if opcode == Opcode::SMSG_LOGIN_SETTIMESPEED {
            "SMSG_LOGIN_SETTIMESPEED".to_string()
        } else if opcode == Opcode::SMSG_NAME_QUERY_RESPONSE {
            "SMSG_NAME_QUERY_RESPONSE".to_string()
        } else if opcode == Opcode::SMSG_ITEM_QUERY_SINGLE_RESPONSE {
            "SMSG_ITEM_QUERY_SINGLE_RESPONSE".to_string()
        } else if opcode == Opcode::SMSG_GAMEOBJECT_QUERY_RESPONSE {
            "SMSG_GAMEOBJECT_QUERY_RESPONSE".to_string()
        } else if opcode == Opcode::SMSG_CREATURE_QUERY_RESPONSE {
            "SMSG_CREATURE_QUERY_RESPONSE".to_string()
        } else if opcode == Opcode::SMSG_GROUP_INVITE {
            "SMSG_GROUP_INVITE".to_string()
        } else if opcode == Opcode::SMSG_GROUP_LIST {
            "SMSG_GROUP_LIST".to_string()
        } else if opcode == Opcode::SMSG_MESSAGECHAT {
            "SMSG_MESSAGECHAT".to_string()
        } else if opcode == Opcode::SMSG_UPDATE_OBJECT {
            "SMSG_UPDATE_OBJECT".to_string()
        } else if opcode == Opcode::SMSG_DESTROY_OBJECT {
            "SMSG_DESTROY_OBJECT".to_string()
        } else if opcode == Opcode::SMSG_GAMEOBJECT_CUSTOM_ANIM {
            "SMSG_GAMEOBJECT_CUSTOM_ANIM".to_string()
        } else if opcode == Opcode::SMSG_MONSTER_MOVE {
            "SMSG_MONSTER_MOVE".to_string()
        } else if opcode == Opcode::SMSG_TUTORIAL_FLAGS {
            "SMSG_TUTORIAL_FLAGS".to_string()
        } else if opcode == Opcode::SMSG_EMOTE {
            "SMSG_EMOTE".to_string()
        } else if opcode == Opcode::SMSG_TEXT_EMOTE {
            "SMSG_TEXT_EMOTE".to_string()
        } else if opcode == Opcode::SMSG_INVENTORY_CHANGE_FAILURE {
            "SMSG_INVENTORY_CHANGE_FAILURE".to_string()
        } else if opcode == Opcode::SMSG_SET_PROFICIENCY {
            "SMSG_SET_PROFICIENCY".to_string()
        } else if opcode == Opcode::SMSG_INITIAL_SPELLS {
            "SMSG_INITIAL_SPELLS".to_string()
        } else if opcode == Opcode::SMSG_CAST_RESULT {
            "SMSG_CAST_RESULT".to_string()
        } else if opcode == Opcode::SMSG_SPELL_START {
            "SMSG_SPELL_START".to_string()
        } else if opcode == Opcode::SMSG_SPELL_GO {
            "SMSG_SPELL_GO".to_string()
        } else if opcode == Opcode::SMSG_SPELL_FAILURE {
            "SMSG_SPELL_FAILURE".to_string()
        } else if opcode == Opcode::SMSG_CANCEL_COMBAT {
            "SMSG_CANCEL_COMBAT".to_string()
        } else if opcode == Opcode::SMSG_SPELLHEALLOG {
            "SMSG_SPELLHEALLOG".to_string()
        } else if opcode == Opcode::SMSG_BINDPOINTUPDATE {
            "SMSG_BINDPOINTUPDATE".to_string()
        } else if opcode == Opcode::SMSG_LOOT_RESPONSE {
            "SMSG_LOOT_RESPONSE".to_string()
        } else if opcode == Opcode::SMSG_LOOT_RELEASE_RESPONSE {
            "SMSG_LOOT_RELEASE_RESPONSE".to_string()
        } else if opcode == Opcode::SMSG_LOOT_REMOVED {
            "SMSG_LOOT_REMOVED".to_string()
        } else if opcode == Opcode::SMSG_ITEM_PUSH_RESULT {
            "SMSG_ITEM_PUSH_RESULT".to_string()
        } else if opcode == Opcode::SMSG_BUY_ITEM {
            "SMSG_BUY_ITEM".to_string()
        } else if opcode == Opcode::SMSG_FISH_NOT_HOOKED {
            "SMSG_FISH_NOT_HOOKED".to_string()
        } else if opcode == Opcode::SMSG_PONG {
            "SMSG_PONG".to_string()
        } else if opcode == Opcode::SMSG_SPELL_DELAYED {
            "SMSG_SPELL_DELAYED".to_string()
        } else if opcode == Opcode::SMSG_AUTH_CHALLENGE {
            "SMSG_AUTH_CHALLENGE".to_string()
        } else if opcode == Opcode::SMSG_AUTH_RESPONSE {
            "SMSG_AUTH_RESPONSE".to_string()
        } else if opcode == Opcode::SMSG_COMPRESSED_UPDATE_OBJECT {
            "SMSG_COMPRESSED_UPDATE_OBJECT".to_string()
        } else if opcode == Opcode::SMSG_ACCOUNT_DATA_TIMES {
            "SMSG_ACCOUNT_DATA_TIMES".to_string()
        } else if opcode == Opcode::SMSG_GAMEOBJECT_DESPAWN_ANIM {
            "SMSG_GAMEOBJECT_DESPAWN_ANIM".to_string()
        } else if opcode == Opcode::SMSG_LOGIN_VERIFY_WORLD {
            "SMSG_LOGIN_VERIFY_WORLD".to_string()
        } else if opcode == Opcode::SMSG_SEND_MAIL_RESULT {
            "SMSG_SEND_MAIL_RESULT".to_string()
        } else if opcode == Opcode::SMSG_MAIL_LIST_RESULT {
            "SMSG_MAIL_LIST_RESULT".to_string()
        } else if opcode == Opcode::SMSG_SPELLLOGEXECUTE {
            "SMSG_SPELLLOGEXECUTE".to_string()
        } else if opcode == Opcode::SMSG_SET_PCT_SPELL_MODIFIER {
            "SMSG_SET_PCT_SPELL_MODIFIER".to_string()
        } else if opcode == Opcode::SMSG_SET_FORCED_REACTIONS {
            "SMSG_SET_FORCED_REACTIONS".to_string()
        } else if opcode == Opcode::SMSG_SPELL_FAILED_OTHER {
            "SMSG_SPELL_FAILED_OTHER".to_string()
        } else if opcode == Opcode::SMSG_WARDEN_DATA {
            "SMSG_WARDEN_DATA".to_string()
        } else if opcode == Opcode::SMSG_ADDON_INFO {
            "SMSG_ADDON_INFO".to_string()
        } else if opcode == Opcode::SMSG_EXPECTED_SPAM_RECORDS {
            "SMSG_EXPECTED_SPAM_RECORDS".to_string()
        } else if opcode == Opcode::SMSG_MOTD {
            "SMSG_MOTD".to_string()
        } else if opcode == Opcode::SMSG_REALM_SPLIT {
            "SMSG_REALM_SPLIT".to_string()
        } else if opcode == Opcode::SMSG_FEATURE_SYSTEM_STATUS {
            "SMSG_FEATURE_SYSTEM_STATUS".to_string()
        } else if opcode == Opcode::SMSG_QUESTGIVER_STATUS_MULTIPLE {
            "SMSG_QUESTGIVER_STATUS_MULTIPLE".to_string()
        } else if opcode == Opcode::SMSG_ACHIEVEMENT_EARNED {
            "SMSG_ACHIEVEMENT_EARNED".to_string()
        } else if opcode == Opcode::SMSG_CRITERIA_UPDATE {
            "SMSG_CRITERIA_UPDATE".to_string()
        } else if opcode == Opcode::SMSG_SET_PHASE_SHIFT {
            "SMSG_SET_PHASE_SHIFT".to_string()
        } else if opcode == Opcode::SMSG_POWER_UPDATE {
            "SMSG_POWER_UPDATE".to_string()
        } else if opcode == Opcode::SMSG_AURA_UPDATE_ALL {
            "SMSG_AURA_UPDATE_ALL".to_string()
        } else if opcode == Opcode::SMSG_AURA_UPDATE {
            "SMSG_AURA_UPDATE".to_string()
        } else if opcode == Opcode::SMSG_CLIENTCACHE_VERSION {
            "SMSG_CLIENTCACHE_VERSION".to_string()
        } else if opcode == Opcode::SMSG_TALENT_UPDATE {
            "SMSG_TALENT_UPDATE".to_string()
        } else if opcode == Opcode::MSG_MOVE_START_FORWARD {
            "MSG_MOVE_START_FORWARD".to_string()
        } else if opcode == Opcode::MSG_MOVE_START_BACKWARD {
            "MSG_MOVE_START_BACKWARD".to_string()
        } else if opcode == Opcode::MSG_MOVE_STOP {
            "MSG_MOVE_STOP".to_string()
        } else if opcode == Opcode::MSG_MOVE_START_STRAFE_LEFT {
            "MSG_MOVE_START_STRAFE_LEFT".to_string()
        } else if opcode == Opcode::MSG_MOVE_START_STRAFE_RIGHT {
            "MSG_MOVE_START_STRAFE_RIGHT".to_string()
        } else if opcode == Opcode::MSG_MOVE_STOP_STRAFE {
            "MSG_MOVE_STOP_STRAFE".to_string()
        } else if opcode == Opcode::MSG_MOVE_JUMP {
            "MSG_MOVE_JUMP".to_string()
        } else if opcode == Opcode::MSG_MOVE_START_TURN_LEFT {
            "MSG_MOVE_START_TURN_LEFT".to_string()
        } else if opcode == Opcode::MSG_MOVE_START_TURN_RIGHT {
            "MSG_MOVE_START_TURN_RIGHT".to_string()
        } else if opcode == Opcode::MSG_MOVE_STOP_TURN {
            "MSG_MOVE_STOP_TURN".to_string()
        } else if opcode == Opcode::MSG_MOVE_START_PITCH_UP {
            "MSG_MOVE_START_PITCH_UP".to_string()
        } else if opcode == Opcode::MSG_MOVE_START_PITCH_DOWN {
            "MSG_MOVE_START_PITCH_DOWN".to_string()
        } else if opcode == Opcode::MSG_MOVE_STOP_PITCH {
            "MSG_MOVE_STOP_PITCH".to_string()
        } else if opcode == Opcode::MSG_MOVE_FALL_LAND {
            "MSG_MOVE_FALL_LAND".to_string()
        } else if opcode == Opcode::MSG_MOVE_START_SWIM {
            "MSG_MOVE_START_SWIM".to_string()
        } else if opcode == Opcode::MSG_MOVE_STOP_SWIM {
            "MSG_MOVE_STOP_SWIM".to_string()
        } else if opcode == Opcode::MSG_MOVE_SET_FACING {
            "MSG_MOVE_SET_FACING".to_string()
        } else if opcode == Opcode::MSG_MOVE_SET_PITCH {
            "MSG_MOVE_SET_PITCH".to_string()
        } else if opcode == Opcode::MSG_MOVE_WORLDPORT_ACK {
            "MSG_MOVE_WORLDPORT_ACK".to_string()
        } else if opcode == Opcode::MSG_MOVE_HEARTBEAT {
            "MSG_MOVE_HEARTBEAT".to_string()
        } else if opcode == Opcode::MSG_SET_DUNGEON_DIFFICULTY {
            "MSG_SET_DUNGEON_DIFFICULTY".to_string()
        } else {
            decimal_string(opcode as u64)
        }
    }
}

} // verus!
