//! Requests about players and characters.

use vstd::prelude::*;

use crate::bytes::{le_bytes, u64_le};
use crate::client::opcodes::Opcode;
use crate::client::packet::{world_frame, world_packet, OutgoingPacket};

verus! {

/// Asks for the name of a player (`CMSG_NAME_QUERY`).
#[derive(Clone, Copy, Debug)]
pub struct NameQueryOutcome {
    pub guid: u64,
}

impl NameQueryOutcome {
    /// The query: the guid, 64 bits little-endian.
    pub fn packet(&self) -> (packet: OutgoingPacket)
        ensures
            packet.opcode == Opcode::CMSG_NAME_QUERY,
            packet.data@ == world_frame(Opcode::CMSG_NAME_QUERY, le_bytes(self.guid as nat, 8)),
    {
        let body = u64_le(self.guid);
        proof {
            crate::bytes::lemma_le_bytes_len(self.guid as nat, 8);
        }
        world_packet(Opcode::CMSG_NAME_QUERY, body.as_slice())
    }
}

/// Asks for the character list (`CMSG_CHAR_ENUM`).
#[derive(Clone, Copy, Debug)]
pub struct CharacterEnumOutcome {}

impl CharacterEnumOutcome {
    /// The request has an empty body.
    pub fn packet(&self) -> (packet: OutgoingPacket)
        ensures
            packet.opcode == Opcode::CMSG_CHAR_ENUM,
            packet.data@ == world_frame(Opcode::CMSG_CHAR_ENUM, Seq::empty()),
    {
        let body: Vec<u8> = Vec::new();
        world_packet(Opcode::CMSG_CHAR_ENUM, body.as_slice())
    }
}

} // verus!
