//! Answers the world server's challenge with the account, a digest of the session key and
//! the addon list.

use vstd::prelude::*;
use vstd::utf8::encode_utf8;

use crate::bytes::{extend_bytes, le_bytes, u32_le, u64_le};
use crate::client::opcodes::{server_opcode_name, Opcode};
use crate::client::packet::{
    is_packet, is_response_with, world_frame, PacketDetails, PacketDetailsView, world_packet, HandlerError, HandlerOutput,
};
use crate::client::session::HandlerInput;
use crate::compression::{zlib_best, zlib_compress_best};
use crate::config::types::{addon_info_bytes, AddonInfo};
use crate::crypto::hash::{sha1, sha1_digest};
use crate::errors::FieldError;

verus! {

pub const SEED_SIZE: usize = 4;

/// The challenge holds an unused 32-bit value, the server seed (4 bytes) and a 32-byte seed.
pub open spec fn auth_challenge_fits(d: Seq<u8>) -> bool {
    d.len() >= 40
}

pub open spec fn server_seed(d: Seq<u8>) -> Seq<u8> {
    d.subrange(4, 8)
}

/// `SHA1(account | 0u32 | client seed | server seed | session key)`.
pub open spec fn session_digest(
    account: Seq<u8>,
    client_seed: Seq<u8>,
    server_seed: Seq<u8>,
    session_key: Seq<u8>,
) -> Seq<u8> {
    sha1(account + seq![0u8, 0u8, 0u8, 0u8] + client_seed + server_seed + session_key)
}

/// The body of `CMSG_AUTH_SESSION`: build 12340, a zero, the account with a zero byte, a
/// zero, the client seed, a zero (64 bits), the realm's server id, a zero (64 bits), the
/// digest, the size of the addon list and the compressed list. Integers are little-endian.
pub open spec fn auth_session_body(
    account: Seq<u8>,
    client_seed: Seq<u8>,
    server_id: u8,
    digest: Seq<u8>,
    addons_size: nat,
    compressed: Seq<u8>,
) -> Seq<u8> {
    le_bytes(12340, 4) + le_bytes(0, 4) + account + seq![0u8] + le_bytes(0, 4) + client_seed
        + le_bytes(0, 8) + le_bytes(server_id as nat, 4) + le_bytes(0, 8) + digest + le_bytes(
        addons_size,
        4,
    ) + compressed
}

/// The 32-bit size field of the addon list (the length modulo 2^32, as `as u32` gives it).
pub open spec fn size_field(len: nat) -> nat {
    len % 4294967296
}

/// Draws the client seed with `rand::random`.
/// Trusted: nothing is stated of the bytes, which depend on chance.
#[verifier::external_body]
fn random_client_seed() -> (seed: [u8; 4]) {
    rand::random()
}

pub struct Handler;

impl Handler {
    /// What answering the challenge does with a given client seed.
    pub open spec fn answered(
        before: HandlerInput,
        after: HandlerInput,
        result: Result<Vec<HandlerOutput>, HandlerError>,
        client_seed: Seq<u8>,
    ) -> bool {
        let d = before.data@;
        &&& after == before
        &&& if !auth_challenge_fits(d) {
            result == Err::<Vec<HandlerOutput>, HandlerError>(
                HandlerError::Field(FieldError::CannotRead),
            )
        } else if before.session.config is None {
            result == Err::<Vec<HandlerOutput>, HandlerError>(HandlerError::ConfigNotSet)
        } else {
            let c = before.session.config->Some_0;
            let account = encode_utf8(c.connection_data.account@);
            let key = before.session.srp->Some_0.session_key_bytes();
            let digest = session_digest(account, client_seed, server_seed(d), key);
            let info = addon_info_bytes(c.addons@);
            let body = auth_session_body(
                account,
                client_seed,
                before.session.selected_realm->Some_0.server_id,
                digest,
                size_field(info.len()),
                zlib_best(info)->Some_0,
            );
            &&& match result {
                Ok(out) => {
                    &&& out.len() == 2
                    &&& is_response_with(
                        out[0],
                        server_opcode_name(before.opcode),
                        PacketDetailsView::ServerSeed(server_seed(d)),
                    )
                    &&& is_packet(
                        out[1],
                        Opcode::CMSG_AUTH_SESSION,
                        world_frame(Opcode::CMSG_AUTH_SESSION, body),
                    )
                },
                Err(e) => if zlib_best(info) is None {
                    e == HandlerError::Compression
                } else {
                    e == HandlerError::PacketTooLarge && body.len() + 4 > u16::MAX
                },
            }
            &&& (zlib_best(info) is Some && body.len() + 4 <= u16::MAX) ==> result is Ok
        }
    }

    /// Answers with a client seed drawn at random.
    pub fn handle(&mut self, input: &mut HandlerInput) -> (result: Result<
        Vec<HandlerOutput>,
        HandlerError,
    >)
        requires
            old(input).session.srp is Some,
            old(input).session.selected_realm is Some,
            old(input).session.config matches Some(c) ==> c.addons@.len() <= u32::MAX,
        ensures
            exists|seed: Seq<u8>|
                seed.len() == SEED_SIZE && #[trigger] Self::answered(
                    *old(input),
                    *final(input),
                    result,
                    seed,
                ),
    {
        let seed = random_client_seed();
        let result = self.handle_with_client_seed(input, seed);
        assert(Self::answered(*old(input), *input, result, seed@));
        result
    }

    /// Answers with the given client seed.
    pub fn handle_with_client_seed(&mut self, input: &mut HandlerInput, client_seed: [u8; 4]) -> (result: Result<
        Vec<HandlerOutput>,
        HandlerError,
    >)
        requires
            old(input).session.srp is Some,
            old(input).session.selected_realm is Some,
            old(input).session.config matches Some(c) ==> c.addons@.len() <= u32::MAX,
        ensures
            Self::answered(*old(input), *final(input), result, client_seed@),
    {
        if input.data.len() < 40 {
            return Err(HandlerError::Field(FieldError::CannotRead));
        }
        let seed_of_server: [u8; 4] = [input.data[4], input.data[5], input.data[6], input.data[7]];
        assert(seed_of_server@ =~= server_seed(input.data@));
        let account = match &input.session.config {
            Some(config) => config.connection_data.account.clone(),
            None => {
                return Err(HandlerError::ConfigNotSet);
            },
        };
        let session_key = match &mut input.session.srp {
            Some(srp) => srp.session_key(),
            None => Vec::new(),
        };
        let server_id = match &input.session.selected_realm {
            Some(realm) => realm.server_id,
            None => 0,
        };
        let mut hashed: Vec<u8> = Vec::new();
        extend_bytes(&mut hashed, account.as_str().as_bytes());
        let zero: [u8; 4] = [0u8; 4];
        extend_bytes(&mut hashed, zero.as_slice());
        extend_bytes(&mut hashed, client_seed.as_slice());
        extend_bytes(&mut hashed, seed_of_server.as_slice());
        extend_bytes(&mut hashed, session_key.as_slice());
        assert(zero@ =~= seq![0u8, 0u8, 0u8, 0u8]);
        let digest = sha1_digest(hashed.as_slice());
        let built = match &input.session.config {
            Some(config) => AddonInfo::build_addon_info(&config.addons),
            None => Ok(Vec::new()),
        };
        let addon_info = match built {
            Ok(info) => info,
            Err(_) => {
                return Err(HandlerError::Compression);
            },
        };
        let compressed = match zlib_compress_best(addon_info.as_slice()) {
            Ok(c) => c,
            Err(_) => {
                return Err(HandlerError::Compression);
            },
        };
        let mut body = u32_le(12340u32);
        let zero32 = u32_le(0u32);
        let zero64 = u64_le(0u64);
        extend_bytes(&mut body, zero32.as_slice());
        extend_bytes(&mut body, account.as_str().as_bytes());
        body.push(0u8);
        extend_bytes(&mut body, zero32.as_slice());
        extend_bytes(&mut body, client_seed.as_slice());
        extend_bytes(&mut body, zero64.as_slice());
        let id = u32_le(server_id as u32);
        extend_bytes(&mut body, id.as_slice());
        extend_bytes(&mut body, zero64.as_slice());
        extend_bytes(&mut body, digest.as_slice());
        let size = u32_le((addon_info.len() as u64 % 4294967296) as u32);
        extend_bytes(&mut body, size.as_slice());
        extend_bytes(&mut body, compressed.as_slice());
        assert(body@ =~= auth_session_body(
            encode_utf8(account@),
            client_seed@,
            server_id,
            digest@,
            size_field(addon_info@.len()),
            compressed@,
        ));
        if body.len() > 65531 {
            return Err(HandlerError::PacketTooLarge);
        }
        let mut response: Vec<HandlerOutput> = Vec::new();
        response.push(
            HandlerOutput::ResponseMessage(
                Opcode::get_server_opcode_name(input.opcode),
                Some(PacketDetails::ServerSeed(seed_of_server)),
            ),
        );
        response.push(HandlerOutput::Data(world_packet(Opcode::CMSG_AUTH_SESSION, body.as_slice())));
        Ok(response)
    }
}

} // verus!

verus! {

/// The digest of `CMSG_AUTH_SESSION` is SHA-1 over the account, four zero bytes, the
/// client seed, the server seed (bytes 4..8 of the challenge) and the session key, in this
/// order. After the 6-byte header the packet holds the build 12340 (4 bytes), a zero (4),
/// the account and its zero byte, a zero (4), the client seed (4), a zero (8), the realm's
/// server id (4 bytes, lowest first), a zero (8), and then the digest.
pub proof fn lemma_auth_session_digest(
    before: HandlerInput,
    after: HandlerInput,
    result: Result<Vec<HandlerOutput>, HandlerError>,
    client_seed: Seq<u8>,
)
    requires
        Handler::answered(before, after, result, client_seed),
        client_seed.len() == 4,
        result is Ok,
    ensures
        ({
            let account = encode_utf8(before.session.config->Some_0.connection_data.account@);
            let key = before.session.srp->Some_0.session_key_bytes();
            let digest = sha1(
                account + seq![0u8, 0u8, 0u8, 0u8] + client_seed + before.data@.subrange(4, 8) + key,
            );
            let start: int = 43 + account.len() as int;
            let n = account.len() as int;
            &&& result->Ok_0@[1] matches HandlerOutput::Data(p) && p.opcode == Opcode::CMSG_AUTH_SESSION
                && start + digest.len() <= p.data@.len() && p.data@.subrange(
                start,
                start + digest.len(),
            ) == digest && p.data@.subrange(6, 10) == seq![0x34u8, 0x30u8, 0u8, 0u8]
                && p.data@.subrange(14, 14 + n) == account && p.data@[14 + n] == 0
                && p.data@.subrange(19 + n, 23 + n) == client_seed && p.data@[31 + n]
                == before.session.selected_realm->Some_0.server_id
        }),
{
    let d = before.data@;
    let c = before.session.config->Some_0;
    let account = encode_utf8(c.connection_data.account@);
    let key = before.session.srp->Some_0.session_key_bytes();
    let digest = session_digest(account, client_seed, server_seed(d), key);
    let info = addon_info_bytes(c.addons@);
    let body = auth_session_body(
        account,
        client_seed,
        before.session.selected_realm->Some_0.server_id,
        digest,
        size_field(info.len()),
        zlib_best(info)->Some_0,
    );
    crate::bytes::lemma_le_bytes_len(12340, 4);
    crate::bytes::lemma_le_bytes_len(0, 4);
    crate::bytes::lemma_le_bytes_len(0, 8);
    crate::bytes::lemma_le_bytes_len(before.session.selected_realm->Some_0.server_id as nat, 4);
    crate::bytes::lemma_le_bytes_len(Opcode::CMSG_AUTH_SESSION as nat, 4);
    crate::bytes::lemma_le_bytes_len(size_field(info.len()), 4);
    let frame = world_frame(Opcode::CMSG_AUTH_SESSION, body);
    let start: int = 43 + account.len() as int;
    assert(frame.subrange(start, start + digest.len()) =~= digest);
    let n = account.len() as int;
    assert(frame.subrange(14, 14 + n) =~= account);
    assert(frame.subrange(19 + n, 23 + n) =~= client_seed);
    crate::bytes::lemma_le_value_of_le_bytes(12340, 4);
    crate::bytes::lemma_pow256_values();
    assert(le_bytes(12340, 4) =~= seq![0x34u8, 0x30u8, 0u8, 0u8]) by {
        reveal_with_fuel(le_bytes, 5);
    }
    assert(frame.subrange(6, 10) =~= seq![0x34u8, 0x30u8, 0u8, 0u8]);
    let id = before.session.selected_realm->Some_0.server_id;
    assert(le_bytes(id as nat, 4)[0] == id) by {
        reveal_with_fuel(le_bytes, 2);
    }
}

} // verus!
