//! The channel join request.

use vstd::prelude::*;
use vstd::utf8::encode_utf8;

use crate::bytes::{extend_bytes, le_bytes, u32_le};
use crate::client::opcodes::Opcode;
use crate::client::packet::{world_frame, world_packet, OutgoingPacket};

verus! {

/// Asks to join a chat channel (`CMSG_JOIN_CHANNEL`).
#[derive(Clone, Debug)]
pub struct JoinChannelOutcome {
    pub channel_id: u32,
    pub unknown: u8,
    pub unknown1: u8,
    pub channel_name: String,
}

/// The body: the channel id (32 bits, little-endian), the two unknown bytes, and the
/// channel name followed by a zero byte.
pub open spec fn join_channel_body(join: JoinChannelOutcome) -> Seq<u8> {
    le_bytes(join.channel_id as nat, 4) + seq![join.unknown, join.unknown1] + encode_utf8(
        join.channel_name@,
    ) + seq![0u8]
}

impl JoinChannelOutcome {
    /// A request to join the named channel, the unknown bytes zero.
    pub fn new(channel_id: u32, channel_name: String) -> (join: Self)
        ensures
            join.channel_id == channel_id,
            join.unknown == 0,
            join.unknown1 == 0,
            join.channel_name@ == channel_name@,
    {
        JoinChannelOutcome { channel_id, unknown: 0, unknown1: 0, channel_name }
    }

    /// The request as a `CMSG_JOIN_CHANNEL` packet.
    pub fn packet(&self) -> (packet: OutgoingPacket)
        requires
            encode_utf8(self.channel_name@).len() + 11 <= u16::MAX,
        ensures
            packet.opcode == Opcode::CMSG_JOIN_CHANNEL,
            packet.data@ == world_frame(Opcode::CMSG_JOIN_CHANNEL, join_channel_body(*self)),
    {
        let mut body = u32_le(self.channel_id);
        body.push(self.unknown);
        body.push(self.unknown1);
        extend_bytes(&mut body, self.channel_name.as_str().as_bytes());
        body.push(0u8);
        assert(body@ =~= join_channel_body(*self));
        proof {
            crate::bytes::lemma_le_bytes_len(self.channel_id as nat, 4);
        }
        world_packet(Opcode::CMSG_JOIN_CHANNEL, body.as_slice())
    }
}

} // verus!
