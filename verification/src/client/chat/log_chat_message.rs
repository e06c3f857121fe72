//! Shows the chat messages that arrive.

use vstd::prelude::*;

use crate::bytes::le_value;
use crate::client::chat::types::{Message, MessageType};
use crate::client::opcodes::{server_opcode_name, Opcode};
use crate::client::packet::{
    is_response_with, HandlerError, HandlerOutput, PacketDetails, PacketDetailsView,
};
use crate::client::reader::{until_nul, ByteReader};
use crate::client::realm::types::strip_nul;
use crate::client::session::HandlerInput;
use crate::errors::FieldError;
use crate::text::{lossy_text, text_of};

verus! {

/// The mathematical value of a chat message.
pub struct MessageView {
    pub message_type: u8,
    pub language: u32,
    pub sender_guid: u64,
    pub channel_name: Seq<char>,
    pub target_guid: u64,
    pub message: Seq<char>,
}

pub open spec fn message_view(m: Message) -> MessageView {
    MessageView {
        message_type: m.message_type,
        language: m.language,
        sender_guid: m.sender_guid,
        channel_name: m.channel_name@,
        target_guid: m.target_guid,
        message: m.message@,
    }
}

/// A copy of a chat message.
pub fn copy_message(m: &Message) -> (r: Message)
    ensures
        message_view(r) == message_view(*m),
{
    Message {
        message_type: m.message_type,
        language: m.language,
        sender_guid: m.sender_guid,
        channel_name: m.channel_name.clone(),
        target_guid: m.target_guid,
        message: m.message.clone(),
    }
}

/// A chat message: its type (one byte), language (32 bits), sender (64 bits), four unused
/// bytes, the channel name up to a zero byte (channel messages only), the target (64
/// bits), the text length (32 bits) and the text. Integers are little-endian.
pub open spec fn chat_message(d: Seq<u8>) -> Option<MessageView> {
    if d.len() < 17 {
        None
    } else {
        let r = d.skip(17);
        let channel = if d[0] == MessageType::CHANNEL {
            until_nul(r)
        } else {
            Seq::empty()
        };
        let r2 = r.skip(channel.len() as int);
        if r2.len() < 12 {
            None
        } else {
            let len = le_value(r2.subrange(8, 12));
            if r2.len() - 12 < len {
                None
            } else {
                Some(
                    MessageView {
                        message_type: d[0],
                        language: le_value(d.subrange(1, 5)) as u32,
                        sender_guid: le_value(d.subrange(5, 13)) as u64,
                        channel_name: text_of(strip_nul(channel)),
                        target_guid: le_value(r2.take(8)) as u64,
                        message: text_of(r2.subrange(12, 12 + len as int)),
                    },
                )
            }
        }
    }
}

fn strip_terminator_bytes(raw: &Vec<u8>) -> (bytes: Vec<u8>)
    ensures
        bytes@ == strip_nul(raw@),
{
    let mut bytes = raw.clone();
    if bytes.len() > 0 && bytes[bytes.len() - 1] == 0 {
        bytes.pop();
    }
    assert(bytes@ =~= strip_nul(raw@));
    bytes
}

/// Reads a chat message.
pub fn read_chat_message(d: &[u8]) -> (m: Result<Message, FieldError>)
    ensures
        match chat_message(d@) {
            None => m == Err::<Message, FieldError>(FieldError::CannotRead),
            Some(v) => m is Ok && message_view(m->Ok_0) == v,
        },
{
    if d.len() < 17 {
        return Err(FieldError::CannotRead);
    }
    let mut reader = ByteReader::new(d);
    let message_type = match reader.read_u8() {
        Ok(v) => v,
        Err(_) => {
            return Err(FieldError::CannotRead);
        },
    };
    let language = match reader.read_u32_le() {
        Ok(v) => v,
        Err(_) => {
            return Err(FieldError::CannotRead);
        },
    };
    let sender_guid = match reader.read_u64_le() {
        Ok(v) => v,
        Err(_) => {
            return Err(FieldError::CannotRead);
        },
    };
    let _ = reader.skip(4);
    proof {
        assert(d@.skip(0).skip(1).take(4) =~= d@.subrange(1, 5));
        assert(d@.skip(0).skip(1).skip(4).take(8) =~= d@.subrange(5, 13));
        assert(d@.skip(0).skip(1).skip(4).skip(8).skip(4) =~= d@.skip(17));
    }
    let ghost r = d@.skip(17);
    let channel_raw: Vec<u8> = if message_type == MessageType::CHANNEL {
        reader.read_until_nul()
    } else {
        Vec::new()
    };
    proof {
        if message_type != MessageType::CHANNEL {
            assert(r.skip(0) =~= r);
        }
    }
    let ghost r2 = reader.rest();
    assert(r2 == r.skip(channel_raw@.len() as int));
    let target_guid = match reader.read_u64_le() {
        Ok(v) => v,
        Err(_) => {
            return Err(FieldError::CannotRead);
        },
    };
    let length = match reader.read_u32_le() {
        Ok(v) => v,
        Err(_) => {
            return Err(FieldError::CannotRead);
        },
    };
    proof {
        assert(r2.skip(8).take(4) =~= r2.subrange(8, 12));
        assert(r2.skip(8).skip(4) =~= r2.skip(12));
    }
    proof {
        reader.lemma_inside();
    }
    if reader.position() > d.len() || d.len() - reader.position() < length as usize {
        proof {
            assert(reader.rest().len() == r2.len() - 12);
        }
        return Err(FieldError::CannotRead);
    }
    let text = match reader.read_bytes(length as usize) {
        Ok(v) => v,
        Err(_) => {
            return Err(FieldError::CannotRead);
        },
    };
    proof {
        assert(r2.skip(12).take(length as int) =~= r2.subrange(12, 12 + length as int));
    }
    let channel_bytes = strip_terminator_bytes(&channel_raw);
    Ok(
        Message {
            message_type,
            language,
            sender_guid,
            channel_name: lossy_text(channel_bytes.as_slice()),
            target_guid,
            message: lossy_text(text.as_slice()),
        },
    )
}

/// Hands each chat message to the user.
pub struct Handler;

impl Handler {
    /// What the handler does with the message.
    pub open spec fn answered(
        before: HandlerInput,
        after: HandlerInput,
        result: Result<Vec<HandlerOutput>, HandlerError>,
    ) -> bool {
        &&& (after == before)
        &&& (match chat_message(before.data@) {
            None => result == Err::<Vec<HandlerOutput>, HandlerError>(
                HandlerError::Field(FieldError::CannotRead),
            ),
            Some(v) => {
                &&& result is Ok
                &&& result->Ok_0@.len() == 2
                &&& is_response_with(
                    result->Ok_0@[0],
                    server_opcode_name(before.opcode),
                    PacketDetailsView::Chat(v),
                )
                &&& result->Ok_0@[1] matches HandlerOutput::ChatMessage(m) && message_view(m)
                    == v
            },
        })
    }

    pub fn handle(&mut self, input: &mut HandlerInput) -> (result: Result<
        Vec<HandlerOutput>,
        HandlerError,
    >)
        ensures
            Self::answered(*old(input), *final(input), result),
    {
        let message = match read_chat_message(input.data.as_slice()) {
            Ok(m) => m,
            Err(e) => {
                return Err(HandlerError::Field(e));
            },
        };
        let mut response: Vec<HandlerOutput> = Vec::new();
        response.push(
            HandlerOutput::ResponseMessage(
                Opcode::get_server_opcode_name(input.opcode),
                Some(PacketDetails::Chat(copy_message(&message))),
            ),
        );
        response.push(HandlerOutput::ChatMessage(message));
        Ok(response)
    }
}

} // verus!

verus! {

/// A message that is not a channel message has no channel name: after the type (1 byte),
/// the language (4), the sender (8) and four unused bytes come the target (bytes 17..25),
/// the text length (25..29) and the text. It reads exactly when the body holds the text.
pub proof fn lemma_plain_message_layout(d: Seq<u8>)
    requires
        d.len() >= 29,
        d[0] != MessageType::CHANNEL,
    ensures
        ({
            let len = le_value(d.subrange(25, 29));
            &&& chat_message(d) is Some <==> d.len() >= 29 + len
            &&& d.len() >= 29 + len ==> (chat_message(d) matches Some(v) && {
                &&& v.message_type == d[0]
                &&& v.language == le_value(d.subrange(1, 5))
                &&& v.sender_guid == le_value(d.subrange(5, 13))
                &&& v.channel_name == Seq::<char>::empty()
                &&& v.target_guid == le_value(d.subrange(17, 25))
                &&& v.message == text_of(d.subrange(29, 29 + len as int))
            })
        }),
{
    let r = d.skip(17);
    let channel = Seq::<u8>::empty();
    assert(r.skip(0) =~= r);
    assert(r.subrange(8, 12) =~= d.subrange(25, 29));
    assert(r.take(8) =~= d.subrange(17, 25));
    let len = le_value(d.subrange(25, 29));
    if d.len() >= 29 + len {
        assert(r.subrange(12, 12 + len as int) =~= d.subrange(29, 29 + len as int));
    }
    assert(strip_nul(channel) =~= Seq::<u8>::empty());
    assert(vstd::utf8::valid_utf8(Seq::<u8>::empty()));
    assert(vstd::utf8::decode_utf8(Seq::<u8>::empty()) =~= Seq::<char>::empty());
    crate::bytes::lemma_pow256_values();
    crate::bytes::lemma_le_value_bound(d.subrange(1, 5));
    crate::bytes::lemma_le_value_bound(d.subrange(5, 13));
    crate::bytes::lemma_le_value_bound(d.subrange(17, 25));
}

} // verus!
