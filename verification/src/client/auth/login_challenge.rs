//! The first packet of the login: the account and the client build.

use vstd::prelude::*;
use vstd::string::StringSliceAdditionalSpecFns;

use crate::bytes::{extend_bytes, le_bytes, le_value, u16_le, u32_le};
use crate::client::opcodes::Opcode;
use crate::client::packet::{login_frame, login_packet, OutgoingPacket};

verus! {

/// The size of the challenge without the account name.
pub const PACKET_LENGTH_WITHOUT_ACCOUNT: u16 = 30;

/// The loopback address 127.0.0.1 as a number.
pub const LOOPBACK_IP: u32 = 0x7F00_0001;

/// The body of `LOGIN_CHALLENGE`: an unused byte, the size of what follows, the game name
/// "WoW", the version 3.3.5 and build 12340, platform "x86", system "Win" and locale
/// "ruRU" (each written reversed, as the server reads them), the time zone, the client
/// address, and the account name with its length in characters (one byte).
pub open spec fn login_challenge_body(account: Seq<char>, account_bytes: Seq<u8>) -> Seq<u8> {
    let account_length = (account.len() % 256) as u8;
    seq![0u8] + le_bytes((PACKET_LENGTH_WITHOUT_ACCOUNT + account_length) as nat, 2)
        + seq![0x57u8, 0x6Fu8, 0x57u8, 0u8] + seq![3u8, 3u8, 5u8] + le_bytes(12340, 2)
        + seq![0x36u8, 0x38u8, 0x78u8, 0u8] + seq![0x6Eu8, 0x69u8, 0x57u8, 0u8]
        + seq![0x55u8, 0x52u8, 0x75u8, 0x72u8] + le_bytes(0, 4) + le_bytes(LOOPBACK_IP as nat, 4)
        + seq![account_length] + account_bytes
}

/// For an ASCII account name shorter than 256 characters, the size field of the
/// challenge counts exactly the bytes that follow it.
pub proof fn lemma_challenge_size_field(account: Seq<char>)
    requires
        vstd::utf8::is_ascii_chars(account),
        account.len() < 256,
    ensures
        le_value(login_challenge_body(account, vstd::utf8::encode_utf8(account)).subrange(1, 3))
            == login_challenge_body(account, vstd::utf8::encode_utf8(account)).len() - 3,
{
    let bytes = vstd::utf8::encode_utf8(account);
    vstd::utf8::is_ascii_chars_encode_utf8(account);
    let size = (PACKET_LENGTH_WITHOUT_ACCOUNT + (account.len() % 256) as u8) as nat;
    let body = login_challenge_body(account, bytes);
    crate::bytes::lemma_le_bytes_len(size, 2);
    crate::bytes::lemma_le_bytes_len(12340, 2);
    crate::bytes::lemma_le_bytes_len(0, 4);
    crate::bytes::lemma_le_bytes_len(LOOPBACK_IP as nat, 4);
    crate::bytes::lemma_le_value_of_le_bytes(size, 2);
    crate::bytes::lemma_pow256_values();
    assert(body.subrange(1, 3) =~= le_bytes(size, 2));
    assert(account.len() % 256 == account.len());
    assert(size == 30 + account.len());
    assert(le_value(le_bytes(size, 2)) == size % 65536);
    assert(size % 65536 == size);
    assert(body.len() == 33 + bytes.len());
}

/// Builds the `LOGIN_CHALLENGE` packet for an account.
pub fn handler(account: &str) -> (packet: OutgoingPacket)
    ensures
        packet.opcode == Opcode::LOGIN_CHALLENGE as u32,
        packet.data@ == login_frame(
            Opcode::LOGIN_CHALLENGE,
            login_challenge_body(account@, account.spec_bytes()),
        ),
{
    let chars = account.unicode_len();
    let account_length = (chars % 256) as u8;
    let packet_size: u16 = PACKET_LENGTH_WITHOUT_ACCOUNT + account_length as u16;
    let mut body: Vec<u8> = Vec::new();
    body.push(0u8);
    let size = u16_le(packet_size);
    extend_bytes(&mut body, size.as_slice());
    let game: [u8; 4] = [0x57u8, 0x6Fu8, 0x57u8, 0u8];
    extend_bytes(&mut body, game.as_slice());
    let version: [u8; 3] = [3u8, 3u8, 5u8];
    extend_bytes(&mut body, version.as_slice());
    let build = u16_le(12340u16);
    extend_bytes(&mut body, build.as_slice());
    let platform: [u8; 4] = [0x36u8, 0x38u8, 0x78u8, 0u8];
    extend_bytes(&mut body, platform.as_slice());
    let os: [u8; 4] = [0x6Eu8, 0x69u8, 0x57u8, 0u8];
    extend_bytes(&mut body, os.as_slice());
    let locale: [u8; 4] = [0x55u8, 0x52u8, 0x75u8, 0x72u8];
    extend_bytes(&mut body, locale.as_slice());
    let timezone = u32_le(0u32);
    extend_bytes(&mut body, timezone.as_slice());
    let ip = u32_le(LOOPBACK_IP);
    extend_bytes(&mut body, ip.as_slice());
    body.push(account_length);
    extend_bytes(&mut body, account.as_bytes());
    assert(game@ =~= seq![0x57u8, 0x6Fu8, 0x57u8, 0u8]);
    assert(version@ =~= seq![3u8, 3u8, 5u8]);
    assert(platform@ =~= seq![0x36u8, 0x38u8, 0x78u8, 0u8]);
    assert(os@ =~= seq![0x6Eu8, 0x69u8, 0x57u8, 0u8]);
    assert(locale@ =~= seq![0x55u8, 0x52u8, 0x75u8, 0x72u8]);
    assert(body@ =~= login_challenge_body(account@, account.spec_bytes()));
    login_packet(Opcode::LOGIN_CHALLENGE, body.as_slice())
}

} // verus!
