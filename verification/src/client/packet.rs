//! Outgoing packet frames and what a packet handler hands back to the client.

use vstd::prelude::*;
use vstd::string::StringExecFns;

use crate::bytes::{be16_bytes, extend_bytes, le_bytes, le_value, u16_be, u32_le};
use crate::client::auth::login_proof::LoginChallengeResponse;
use crate::client::chat::log_chat_message::{message_view, MessageView};
use crate::client::chat::types::Message;
use crate::client::player::handle_update_data::UpdateBlock;
use crate::client::player::types::{Player, PlayerView};
use crate::client::realm::types::{realm_views, Realm, RealmView};
use crate::client::session::player_views;
use crate::errors::{CharacterListError, FieldError, RealmListError};

verus! {

/// A packet ready to be written to the socket (the world header is still in the clear).
#[derive(Debug)]
pub struct OutgoingPacket {
    pub opcode: u32,
    pub data: Vec<u8>,
}

/// A login-server packet: the opcode byte, then the body.
pub open spec fn login_frame(opcode: u8, body: Seq<u8>) -> Seq<u8> {
    seq![opcode] + body
}

/// A world-server packet from the client: the size of what follows (big-endian 16 bits,
/// the 4 opcode bytes included), the opcode (little-endian 32 bits), then the body.
pub open spec fn world_frame(opcode: u32, body: Seq<u8>) -> Seq<u8> {
    be16_bytes((body.len() + 4) as u16) + le_bytes(opcode as nat, 4) + body
}

/// Frames a login-server packet.
pub fn login_packet(opcode: u8, body: &[u8]) -> (packet: OutgoingPacket)
    ensures
        packet.opcode == opcode,
        packet.data@ == login_frame(opcode, body@),
{
    let mut data: Vec<u8> = Vec::new();
    data.push(opcode);
    extend_bytes(&mut data, body);
    assert(data@ =~= login_frame(opcode, body@));
    OutgoingPacket { opcode: opcode as u32, data }
}

/// Frames a world-server packet.
pub fn world_packet(opcode: u32, body: &[u8]) -> (packet: OutgoingPacket)
    requires
        body@.len() + 4 <= u16::MAX,
    ensures
        packet.opcode == opcode,
        packet.data@ == world_frame(opcode, body@),
{
    let size = u16_be((body.len() + 4) as u16);
    let mut data: Vec<u8> = Vec::new();
    extend_bytes(&mut data, size.as_slice());
    let op = u32_le(opcode);
    extend_bytes(&mut data, op.as_slice());
    extend_bytes(&mut data, body);
    assert(data@ =~= world_frame(opcode, body@));
    OutgoingPacket { opcode, data }
}

/// A world packet is its size (big-endian, counting the opcode and the body, so all
/// that follows the size), the opcode (little-endian) and the body.
pub proof fn lemma_world_frame_layout(opcode: u32, body: Seq<u8>)
    requires
        body.len() + 4 <= u16::MAX,
    ensures
        world_frame(opcode, body).len() == body.len() + 6,
        world_frame(opcode, body)[0] as nat * 256 + world_frame(opcode, body)[1] as nat
            == world_frame(opcode, body).len() - 2,
        le_value(world_frame(opcode, body).subrange(2, 6)) == opcode as nat,
        world_frame(opcode, body).skip(6) == body,
{
    let size = (body.len() + 4) as u16;
    let frame = world_frame(opcode, body);
    crate::bytes::lemma_le_bytes_len(opcode as nat, 4);
    crate::bytes::lemma_le_value_of_le_bytes(opcode as nat, 4);
    crate::bytes::lemma_pow256_values();
    assert(frame.subrange(2, 6) =~= le_bytes(opcode as nat, 4));
    assert(le_value(le_bytes(opcode as nat, 4)) == (opcode as nat) % 4294967296);
    assert((opcode as nat) % 4294967296 == opcode as nat);
    assert(frame.skip(6) =~= body);
    assert((size / 256) as u8 as nat * 256 + (size % 256) as u8 as nat == size);
}

/// What a handler read from an incoming packet, shown beside the packet's name.
#[derive(Debug)]
pub enum PacketDetails {
    /// The body of a packet that no handler took, in hexadecimal.
    Hex(String),
    /// The login server's challenge.
    LoginChallenge(LoginChallengeResponse),
    /// The realms of the realm list.
    Realms(Vec<Realm>),
    /// The seed of the world server's challenge.
    ServerSeed([u8; 4]),
    /// The characters of the account.
    Characters(Vec<Player>),
    /// The object the packet is about: the one that moved, or the sender of a message.
    Guid(u64),
    /// The item and the caster of a spell that went off.
    SpellGo { item: u64, caster: u64 },
    /// A chat message.
    Chat(Message),
    /// The answer to a name query.
    Name { guid: u64, name: String, race: u8, gender: u8, class: u8 },
    /// The spells the character knows.
    Spells(Vec<u32>),
    /// The blocks of an object update.
    Blocks(Vec<UpdateBlock>),
}

/// The mathematical value of the details of a packet.
pub enum PacketDetailsView {
    Hex(Seq<char>),
    LoginChallenge {
        unknown: u8,
        code: u8,
        server_ephemeral: Seq<u8>,
        g_len: u8,
        g: Seq<u8>,
        n_len: u8,
        n: Seq<u8>,
        salt: Seq<u8>,
        version_challenge: Seq<u8>,
        unknown2: u8,
    },
    Realms(Seq<RealmView>),
    ServerSeed(Seq<u8>),
    Characters(Seq<PlayerView>),
    Guid(u64),
    SpellGo { item: u64, caster: u64 },
    Chat(MessageView),
    Name { guid: u64, name: Seq<char>, race: u8, gender: u8, class: u8 },
    Spells(Seq<u32>),
    Blocks(Seq<UpdateBlock>),
}

impl View for PacketDetails {
    type V = PacketDetailsView;

    open spec fn view(&self) -> PacketDetailsView {
        match self {
            PacketDetails::Hex(s) => PacketDetailsView::Hex(s@),
            PacketDetails::LoginChallenge(c) => PacketDetailsView::LoginChallenge {
                unknown: c.unknown,
                code: c.code,
                server_ephemeral: c.server_ephemeral@,
                g_len: c.g_len,
                g: c.g@,
                n_len: c.n_len,
                n: c.n@,
                salt: c.salt@,
                version_challenge: c.version_challenge@,
                unknown2: c.unknown2,
            },
            PacketDetails::Realms(rs) => PacketDetailsView::Realms(realm_views(rs@)),
            PacketDetails::ServerSeed(s) => PacketDetailsView::ServerSeed(s@),
            PacketDetails::Characters(ps) => PacketDetailsView::Characters(player_views(ps@)),
            PacketDetails::Guid(g) => PacketDetailsView::Guid(*g),
            PacketDetails::SpellGo { item, caster } => PacketDetailsView::SpellGo {
                item: *item,
                caster: *caster,
            },
            PacketDetails::Chat(m) => PacketDetailsView::Chat(message_view(*m)),
            PacketDetails::Name { guid, name, race, gender, class } => PacketDetailsView::Name {
                guid: *guid,
                name: name@,
                race: *race,
                gender: *gender,
                class: *class,
            },
            PacketDetails::Spells(v) => PacketDetailsView::Spells(v@),
            PacketDetails::Blocks(v) => PacketDetailsView::Blocks(v@),
        }
    }
}

/// A copy of a list of values that are copied bit for bit.
pub fn copy_values<T: Copy>(values: &Vec<T>) -> (r: Vec<T>)
    ensures
        r@ == values@,
{
    let mut out: Vec<T> = Vec::new();
    let mut k: usize = 0;
    while k < values.len()
        invariant
            k <= values@.len(),
            out@ == values@.take(k as int),
        decreases values@.len() - k,
    {
        out.push(values[k]);
        k = k + 1;
        assert(out@ =~= values@.take(k as int));
    }
    assert(values@.take(values@.len() as int) =~= values@);
    out
}

/// What a packet handler asks the client to do or to show.
#[derive(Debug)]
pub enum HandlerOutput {
    Data(OutgoingPacket),
    ConnectionRequest(String, u16),
    ErrorMessage(String, Option<String>),
    DebugMessage(String, Option<String>),
    ResponseMessage(String, Option<PacketDetails>),
    RequestMessage(String, Option<String>),
    SuccessMessage(String, Option<String>),
    ChatMessage(Message),
    TransferRealmsList(Vec<Realm>),
    TransferCharactersList(Vec<Player>),
    SelectRealm(Realm),
    SelectCharacter(Player),
    /// The character's own state changed.
    UpdatePlayer(Player),
    Freeze,
    Drop,
    ExitRequest,
    ExitConfirmed,
}

/// Why a packet handler gave up.
#[derive(Debug, PartialEq, Eq, Structural, Clone, Copy)]
pub enum HandlerError {
    Field(FieldError),
    RealmList(RealmListError),
    CharacterList(CharacterListError),
    /// The public ephemeral `A` is shorter than the 32 bytes of the proof packet.
    ShortPublicEphemeral,
    /// The session has no configuration.
    ConfigNotSet,
    /// The addon list could not be laid out or compressed.
    Compression,
    /// A world packet body does not fit the 16-bit size of its header.
    PacketTooLarge,
}

/// The text the user is shown for a handler error.
pub open spec fn error_text(e: HandlerError) -> Seq<char> {
    match e {
        HandlerError::Field(FieldError::CannotRead) => "Read error for field"@,
        HandlerError::Field(FieldError::InvalidString) => "Invalid string when parse field"@,
        HandlerError::Field(FieldError::CannotWrite) => "Write error for field"@,
        HandlerError::RealmList(RealmListError::NotFound) =>
            "No realm found ! Check the config file for autoselect - realm_name"@,
        HandlerError::CharacterList(CharacterListError::Empty) =>
            "Characters list is empty. Cannot select any character here."@,
        HandlerError::CharacterList(CharacterListError::NotFound) =>
            "No realm found ! Check the config file for autoselect - realm_name"@,
        HandlerError::ShortPublicEphemeral => "Public ephemeral is not 32 bytes long"@,
        HandlerError::ConfigNotSet => "Config is not set"@,
        HandlerError::Compression => "Cannot compress the addon list"@,
        HandlerError::PacketTooLarge => "Packet is too large"@,
    }
}

impl HandlerError {
    /// The text the user is shown for the error.
    pub fn message(&self) -> (text: String)
        ensures
            text@ == error_text(*self),
    {
        match self {
            HandlerError::Field(FieldError::CannotRead) => String::from_str("Read error for field"),
            HandlerError::Field(FieldError::InvalidString) => String::from_str(
                "Invalid string when parse field",
            ),
            HandlerError::Field(FieldError::CannotWrite) => String::from_str("Write error for field"),
            HandlerError::RealmList(RealmListError::NotFound) => String::from_str(
                "No realm found ! Check the config file for autoselect - realm_name",
            ),
            HandlerError::CharacterList(CharacterListError::Empty) => String::from_str(
                "Characters list is empty. Cannot select any character here.",
            ),
            HandlerError::CharacterList(CharacterListError::NotFound) => String::from_str(
                "No realm found ! Check the config file for autoselect - realm_name",
            ),
            HandlerError::ShortPublicEphemeral => String::from_str(
                "Public ephemeral is not 32 bytes long",
            ),
            HandlerError::ConfigNotSet => String::from_str("Config is not set"),
            HandlerError::Compression => String::from_str("Cannot compress the addon list"),
            HandlerError::PacketTooLarge => String::from_str("Packet is too large"),
        }
    }
}

/// An error message without details.
pub open spec fn is_error_message(output: HandlerOutput, text: Seq<char>) -> bool {
    output matches HandlerOutput::ErrorMessage(m, d) && m@ == text && d is None
}

/// A debug message with the given details.
pub open spec fn is_debug_message(
    output: HandlerOutput,
    text: Seq<char>,
    details: Option<Seq<char>>,
) -> bool {
    &&& output matches HandlerOutput::DebugMessage(m, d)
    &&& m@ == text
    &&& match details {
        None => d is None,
        Some(t) => d matches Some(s) && s@ == t,
    }
}

/// A message about a packet, without details.
pub open spec fn is_response_message(output: HandlerOutput, text: Seq<char>) -> bool {
    output matches HandlerOutput::ResponseMessage(m, d) && m@ == text && d is None
}

/// The name of an incoming packet, shown when it arrives, with what the handler read
/// from it.
pub open spec fn is_response_with(
    output: HandlerOutput,
    text: Seq<char>,
    details: PacketDetailsView,
) -> bool {
    &&& output matches HandlerOutput::ResponseMessage(m, d)
    &&& m@ == text
    &&& d matches Some(v) && v@ == details
}

/// A packet to send, with its opcode and its bytes.
pub open spec fn is_packet(output: HandlerOutput, opcode: u32, bytes: Seq<u8>) -> bool {
    output matches HandlerOutput::Data(p) && p.opcode == opcode && p.data@ == bytes
}

/// The packet handlers the client runs on incoming packets.
#[derive(PartialEq, Eq, Structural, Clone, Copy, Debug)]
pub enum HandlerKind {
    CheckProofCode,
    LoginProof,
    ValidateProof,
    RequestRealmlist,
    GetRealmlist,
    ConnectToRealm,
    AuthChallenge,
    ReadyForAccountDataTimes,
    RequestCharacters,
    RealmSplit,
    JoinChannels,
    SetInWorld,
    ParseMotd,
    Logout,
    QueryUnknownPlayer,
    LogChatMessage,
    DetectMotion,
    HandleUpdateData,
    HandleNameQueryResponse,
    InitWorldStates,
    GetCharactersList,
    PlayerLogin,
    CheckCharacterCreateStatus,
    HandleSpellGo,
    HandleInitialSpells,
    WardenSendData,
}

} // verus!
