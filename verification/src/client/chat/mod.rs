//! Chat: which packets carry messages, and the messages the client sends.

pub mod globals;
pub mod log_chat_message;
pub mod query_unknown_player;
pub mod types;

use vstd::prelude::*;
use vstd::utf8::encode_utf8;

use crate::bytes::{extend_bytes, le_bytes, u32_le, u64_le};
use crate::client::opcodes::Opcode;
use crate::client::packet::{world_frame, world_packet, HandlerKind, OutgoingPacket};
use crate::client::session::HandlerInput;

verus! {

/// The handlers of a chat packet.
pub open spec fn chat_handlers(opcode: u16) -> Seq<HandlerKind> {
    if opcode == Opcode::SMSG_MESSAGECHAT {
        seq![HandlerKind::QueryUnknownPlayer, HandlerKind::LogChatMessage]
    } else {
        seq![]
    }
}

/// Routes chat packets.
pub struct ChatProcessor;

impl ChatProcessor {
    pub fn get_handlers(input: &mut HandlerInput) -> (handlers: Vec<HandlerKind>)
        ensures
            *final(input) == *old(input),
            handlers@ == chat_handlers(old(input).opcode),
    {
        let mut handlers: Vec<HandlerKind> = Vec::new();
        if input.opcode == Opcode::SMSG_MESSAGECHAT {
            handlers.push(HandlerKind::QueryUnknownPlayer);
            handlers.push(HandlerKind::LogChatMessage);
        }
        assert(handlers@ =~= chat_handlers(input.opcode));
        handlers
    }
}

/// A chat message to send (`CMSG_MESSAGECHAT`).
#[derive(Clone, Debug)]
pub struct ChatOutcome {
    pub message_type: u32,
    pub language: u32,
    /// The text, which the caller ends with a zero byte.
    pub message: String,
}

/// An emote to play (`CMSG_EMOTE`).
#[derive(Clone, Copy, Debug)]
pub struct EmoteOutcome {
    pub emote_type: u32,
}

/// A text emote towards a target (`CMSG_TEXT_EMOTE`).
#[derive(Clone, Copy, Debug)]
pub struct TextEmoteOutcome {
    pub text_emote_type: u32,
    pub emote_num: u32,
    pub guid: u64,
}

/// The body of a chat message: type and language (32 bits, little-endian) and the text.
pub open spec fn chat_body(chat: ChatOutcome) -> Seq<u8> {
    le_bytes(chat.message_type as nat, 4) + le_bytes(chat.language as nat, 4) + encode_utf8(
        chat.message@,
    )
}

impl ChatOutcome {
    pub fn packet(&self) -> (packet: OutgoingPacket)
        requires
            encode_utf8(self.message@).len() + 12 <= u16::MAX,
        ensures
            packet.opcode == Opcode::CMSG_MESSAGECHAT,
            packet.data@ == world_frame(Opcode::CMSG_MESSAGECHAT, chat_body(*self)),
    {
        let mut body = u32_le(self.message_type);
        let language = u32_le(self.language);
        extend_bytes(&mut body, language.as_slice());
        extend_bytes(&mut body, self.message.as_str().as_bytes());
        proof {
            crate::bytes::lemma_le_bytes_len(self.message_type as nat, 4);
            crate::bytes::lemma_le_bytes_len(self.language as nat, 4);
        }
        assert(body@ =~= chat_body(*self));
        world_packet(Opcode::CMSG_MESSAGECHAT, body.as_slice())
    }
}

impl EmoteOutcome {
    pub fn packet(&self) -> (packet: OutgoingPacket)
        ensures
            packet.opcode == Opcode::CMSG_EMOTE,
            packet.data@ == world_frame(Opcode::CMSG_EMOTE, le_bytes(self.emote_type as nat, 4)),
    {
        let body = u32_le(self.emote_type);
        proof {
            crate::bytes::lemma_le_bytes_len(self.emote_type as nat, 4);
        }
        world_packet(Opcode::CMSG_EMOTE, body.as_slice())
    }
}

/// The body of a text emote: type and number (32 bits each) and the target guid (64
/// bits), all little-endian.
pub open spec fn text_emote_body(emote: TextEmoteOutcome) -> Seq<u8> {
    le_bytes(emote.text_emote_type as nat, 4) + le_bytes(emote.emote_num as nat, 4) + le_bytes(
        emote.guid as nat,
        8,
    )
}

impl TextEmoteOutcome {
    pub fn packet(&self) -> (packet: OutgoingPacket)
        ensures
            packet.opcode == Opcode::CMSG_TEXT_EMOTE,
            packet.data@ == world_frame(Opcode::CMSG_TEXT_EMOTE, text_emote_body(*self)),
    {
        let mut body = u32_le(self.text_emote_type);
        let num = u32_le(self.emote_num);
        extend_bytes(&mut body, num.as_slice());
        let guid = u64_le(self.guid);
        extend_bytes(&mut body, guid.as_slice());
        proof {
            crate::bytes::lemma_le_bytes_len(self.text_emote_type as nat, 4);
            crate::bytes::lemma_le_bytes_len(self.emote_num as nat, 4);
            crate::bytes::lemma_le_bytes_len(self.guid as nat, 8);
        }
        assert(body@ =~= text_emote_body(*self));
        world_packet(Opcode::CMSG_TEXT_EMOTE, body.as_slice())
    }
}

} // verus!
