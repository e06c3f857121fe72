//! Players and characters: which packets tell of them, and the character creation request.

pub mod character_list;
pub mod get_characters_list;
pub mod globals;
pub mod handle_name_query_response;
pub mod handle_update_data;
pub mod player_login;
pub mod traits;
pub mod types;

use vstd::prelude::*;
use vstd::utf8::encode_utf8;

use crate::bytes::extend_bytes;
use crate::client::opcodes::Opcode;
use crate::client::packet::{world_frame, world_packet, HandlerKind, OutgoingPacket};
use crate::client::session::HandlerInput;

verus! {

/// The server reports the world states of the zone.
pub const SMSG_INIT_WORLD_STATES: u16 = 706;

/// The server answers a character creation.
pub const SMSG_CHAR_CREATE: u16 = 58;

/// The handlers of a player packet.
pub open spec fn player_handlers(opcode: u16) -> Seq<HandlerKind> {
    if opcode == Opcode::SMSG_COMPRESSED_UPDATE_OBJECT || opcode == Opcode::SMSG_UPDATE_OBJECT {
        seq![HandlerKind::HandleUpdateData]
    } else if opcode == Opcode::SMSG_NAME_QUERY_RESPONSE {
        seq![HandlerKind::HandleNameQueryResponse]
    } else if opcode == SMSG_INIT_WORLD_STATES {
        seq![HandlerKind::InitWorldStates]
    } else if opcode == Opcode::SMSG_CHAR_ENUM {
        seq![HandlerKind::GetCharactersList, HandlerKind::PlayerLogin]
    } else if opcode == SMSG_CHAR_CREATE {
        seq![HandlerKind::CheckCharacterCreateStatus]
    } else {
        seq![]
    }
}

/// Routes player packets.
pub struct PlayerProcessor;

impl PlayerProcessor {
    pub fn get_handlers(input: &mut HandlerInput) -> (handlers: Vec<HandlerKind>)
        ensures
            *final(input) == *old(input),
            handlers@ == player_handlers(old(input).opcode),
    {
        let opcode = input.opcode;
        let mut handlers: Vec<HandlerKind> = Vec::new();
        if opcode == Opcode::SMSG_COMPRESSED_UPDATE_OBJECT || opcode == Opcode::SMSG_UPDATE_OBJECT {
            handlers.push(HandlerKind::HandleUpdateData);
        } else if opcode == Opcode::SMSG_NAME_QUERY_RESPONSE {
            handlers.push(HandlerKind::HandleNameQueryResponse);
        } else if opcode == SMSG_INIT_WORLD_STATES {
            handlers.push(HandlerKind::InitWorldStates);
        } else if opcode == Opcode::SMSG_CHAR_ENUM {
            handlers.push(HandlerKind::GetCharactersList);
            handlers.push(HandlerKind::PlayerLogin);
        } else if opcode == SMSG_CHAR_CREATE {
            handlers.push(HandlerKind::CheckCharacterCreateStatus);
        }
        assert(handlers@ =~= player_handlers(opcode));
        handlers
    }
}

/// Creates a character (`CMSG_CHAR_CREATE`).
#[derive(Clone, Debug)]
pub struct CharCreateOutcome {
    /// The name, which the caller ends with a zero byte.
    pub name: String,
    pub race: u8,
    pub class: u8,
    pub gender: u8,
    pub skin: u8,
    pub face: u8,
    pub hair_style: u8,
    pub hair_color: u8,
    pub facial_hair: u8,
    pub outfit_id: u8,
}

/// The body: the name, then one byte for each attribute in declaration order.
pub open spec fn char_create_body(c: CharCreateOutcome) -> Seq<u8> {
    encode_utf8(c.name@) + seq![
        c.race,
        c.class,
        c.gender,
        c.skin,
        c.face,
        c.hair_style,
        c.hair_color,
        c.facial_hair,
        c.outfit_id,
    ]
}

impl CharCreateOutcome {
    pub fn packet(&self) -> (packet: OutgoingPacket)
        requires
            encode_utf8(self.name@).len() + 13 <= u16::MAX,
        ensures
            packet.opcode == Opcode::CMSG_CHAR_CREATE,
            packet.data@ == world_frame(Opcode::CMSG_CHAR_CREATE, char_create_body(*self)),
    {
        let mut body: Vec<u8> = Vec::new();
        extend_bytes(&mut body, self.name.as_str().as_bytes());
        body.push(self.race);
        body.push(self.class);
        body.push(self.gender);
        body.push(self.skin);
        body.push(self.face);
        body.push(self.hair_style);
        body.push(self.hair_color);
        body.push(self.facial_hair);
        body.push(self.outfit_id);
        assert(body@ =~= char_create_body(*self));
        world_packet(Opcode::CMSG_CHAR_CREATE, body.as_slice())
    }
}

} // verus!
