//! Answers the login challenge: starts the SRP6 handshake and sends the client proof.

use vstd::prelude::*;
use vstd::arithmetic::power::pow;
use vstd::utf8::encode_utf8;

use crate::bytes::{encode_hex, extend_bytes, hex_chars, le_value};
use crate::client::opcodes::{server_opcode_name, Opcode};
use crate::client::packet::{
    is_debug_message, is_packet, is_response_with, login_frame, login_packet, HandlerError,
    HandlerOutput, PacketDetails, PacketDetailsView,
};
use crate::client::session::{HandlerInput, Session};
use crate::crypto::bignum::{abs, nat_to_le};
use crate::crypto::srp::{
    client_proof_of, interleaved_key, random_private_ephemeral, srp_secret, srp_x, Srp,
};
use crate::errors::FieldError;

verus! {

/// The login challenge answer of the server.
#[derive(Debug)]
pub struct LoginChallengeResponse {
    pub unknown: u8,
    pub code: u8,
    pub server_ephemeral: [u8; 32],
    pub g_len: u8,
    pub g: Vec<u8>,
    pub n_len: u8,
    pub n: Vec<u8>,
    pub salt: [u8; 32],
    pub version_challenge: [u8; 16],
    pub unknown2: u8,
}

/// The length of the generator field.
pub open spec fn challenge_g_len(d: Seq<u8>) -> int {
    d[34] as int
}

/// The length of the modulus field, which follows the generator.
pub open spec fn challenge_n_len(d: Seq<u8>) -> int {
    d[35 + challenge_g_len(d)] as int
}

/// The answer holds every field: unused byte, code, `B` (32 bytes), the generator and the
/// modulus each after its length byte, the salt (32), the version challenge (16) and a
/// last byte.
pub open spec fn challenge_fits(d: Seq<u8>) -> bool {
    &&& d.len() >= 36
    &&& d.len() >= 36 + challenge_g_len(d)
    &&& d.len() >= 85 + challenge_g_len(d) + challenge_n_len(d)
}

pub open spec fn challenge_server_ephemeral(d: Seq<u8>) -> Seq<u8> {
    d.subrange(2, 34)
}

pub open spec fn challenge_g(d: Seq<u8>) -> Seq<u8> {
    d.subrange(35, 35 + challenge_g_len(d))
}

pub open spec fn challenge_n(d: Seq<u8>) -> Seq<u8> {
    let start = 36 + challenge_g_len(d);
    d.subrange(start, start + challenge_n_len(d))
}

pub open spec fn challenge_salt(d: Seq<u8>) -> Seq<u8> {
    let start = 36 + challenge_g_len(d) + challenge_n_len(d);
    d.subrange(start, start + 32)
}

pub open spec fn challenge_version(d: Seq<u8>) -> Seq<u8> {
    let start = 68 + challenge_g_len(d) + challenge_n_len(d);
    d.subrange(start, start + 16)
}

/// What the client shows of the challenge: its fields.
pub open spec fn challenge_details(d: Seq<u8>) -> PacketDetailsView {
    PacketDetailsView::LoginChallenge {
        unknown: d[0],
        code: d[1],
        server_ephemeral: challenge_server_ephemeral(d),
        g_len: d[34],
        g: challenge_g(d),
        n_len: d[35 + challenge_g_len(d)],
        n: challenge_n(d),
        salt: challenge_salt(d),
        version_challenge: challenge_version(d),
        unknown2: d[84 + challenge_g_len(d) + challenge_n_len(d)],
    }
}

fn copy_range(d: &[u8], start: usize, len: usize) -> (out: Vec<u8>)
    requires
        start + len <= d.len(),
    ensures
        out@ == d@.subrange(start as int, start + len),
{
    let mut out: Vec<u8> = Vec::new();
    let mut k: usize = 0;
    while k < len
        invariant
            k <= len,
            start + len <= d.len(),
            out@ == d@.subrange(start as int, start + k),
        decreases len - k,
    {
        out.push(d[start + k]);
        k = k + 1;
        assert(out@ =~= d@.subrange(start as int, start + k));
    }
    out
}

fn copy_array32(d: &[u8], start: usize) -> (out: [u8; 32])
    requires
        start + 32 <= d.len(),
    ensures
        out@ == d@.subrange(start as int, start + 32),
{
    let mut out = [0u8; 32];
    let mut k: usize = 0;
    while k < 32
        invariant
            k <= 32,
            start + 32 <= d.len(),
            forall|m: int| 0 <= m < k ==> out@[m] == d@[start + m],
        decreases 32 - k,
    {
        out[k] = d[start + k];
        k = k + 1;
    }
    assert(out@ =~= d@.subrange(start as int, start + 32));
    out
}

fn copy_array16(d: &[u8], start: usize) -> (out: [u8; 16])
    requires
        start + 16 <= d.len(),
    ensures
        out@ == d@.subrange(start as int, start + 16),
{
    let mut out = [0u8; 16];
    let mut k: usize = 0;
    while k < 16
        invariant
            k <= 16,
            start + 16 <= d.len(),
            forall|m: int| 0 <= m < k ==> out@[m] == d@[start + m],
        decreases 16 - k,
    {
        out[k] = d[start + k];
        k = k + 1;
    }
    assert(out@ =~= d@.subrange(start as int, start + 16));
    out
}

impl LoginChallengeResponse {
    /// Reads the answer; fails when the body is shorter than its fields.
    pub fn from_bytes(d: &[u8]) -> (r: Result<Self, FieldError>)
        ensures
            !challenge_fits(d@) ==> r == Err::<Self, FieldError>(FieldError::CannotRead),
            challenge_fits(d@) ==> {
                &&& r is Ok
                &&& r->Ok_0.unknown == d@[0]
                &&& r->Ok_0.code == d@[1]
                &&& r->Ok_0.server_ephemeral@ == challenge_server_ephemeral(d@)
                &&& r->Ok_0.g_len == d@[34]
                &&& r->Ok_0.g@ == challenge_g(d@)
                &&& r->Ok_0.n_len == challenge_n_len(d@)
                &&& r->Ok_0.n@ == challenge_n(d@)
                &&& r->Ok_0.salt@ == challenge_salt(d@)
                &&& r->Ok_0.version_challenge@ == challenge_version(d@)
                &&& r->Ok_0.unknown2 == d@[84 + challenge_g_len(d@) + challenge_n_len(d@)]
            },
    {
        if d.len() < 36 {
            return Err(FieldError::CannotRead);
        }
        let g_len = d[34];
        if d.len() < 36 + g_len as usize {
            return Err(FieldError::CannotRead);
        }
        let n_len = d[35 + g_len as usize];
        if d.len() < 85 + g_len as usize + n_len as usize {
            return Err(FieldError::CannotRead);
        }
        let gl = g_len as usize;
        let nl = n_len as usize;
        Ok(LoginChallengeResponse {
            unknown: d[0],
            code: d[1],
            server_ephemeral: copy_array32(d, 2),
            g_len,
            g: copy_range(d, 35, gl),
            n_len,
            n: copy_range(d, 36 + gl, nl),
            salt: copy_array32(d, 36 + gl + nl),
            version_challenge: copy_array16(d, 68 + gl + nl),
            unknown2: d[84 + gl + nl],
        })
    }
}

/// The checksum the client sends with its proof.
pub open spec fn crc_hash() -> Seq<u8> {
    seq![
        0xCDu8, 0xCBu8, 0xBDu8, 0x51u8, 0x88u8, 0x31u8, 0x5Eu8, 0x6Bu8, 0x4Du8, 0x19u8, 0x44u8,
        0x9Du8, 0x49u8, 0x2Du8, 0xBCu8, 0xFAu8, 0xF1u8, 0x56u8, 0xA3u8, 0x47u8,
    ]
}

/// `srp` is the handshake of the answer `d` for this account and password: the server's
/// numbers, `A = g^a mod N`, the session key and the client proof.
pub open spec fn handshake_of(srp: Srp, d: Seq<u8>, account: Seq<u8>, password: Seq<u8>) -> bool {
    let modulus = le_value(challenge_n(d)) as int;
    let generator = le_value(challenge_g(d)) as int;
    let server = le_value(challenge_server_ephemeral(d)) as int;
    let salt = challenge_salt(d);
    let key = interleaved_key(
        nat_to_le(
            abs(
                srp_secret(
                    modulus,
                    generator,
                    srp.private_ephemeral(),
                    srp.public_ephemeral_value(),
                    server,
                    srp_x(account, password, salt),
                ),
            ),
        ),
    );
    &&& srp.wf()
    &&& srp.modulus() == modulus
    &&& srp.generator() == generator
    &&& srp.server_ephemeral() == server
    &&& srp.salt() == salt
    &&& 0 <= srp.private_ephemeral() < pow(256, 19)
    &&& srp.public_ephemeral_value() == pow(generator, srp.private_ephemeral() as nat) % modulus
    &&& srp.session_key_bytes() == key
    &&& srp.client_proof() == Some(
        client_proof_of(
            modulus,
            generator,
            account,
            salt,
            srp.public_ephemeral_value(),
            server,
            key,
        ),
    )
}

/// The body of `LOGIN_PROOF`: `A` (32 bytes), the client proof, the checksum, and two
/// zero bytes (no keys, no security flags).
pub open spec fn login_proof_body(srp: Srp) -> Seq<u8> {
    srp.public_ephemeral_bytes() + srp.client_proof().unwrap() + crc_hash() + seq![0u8, 0u8]
}

/// `A = g^a mod N`, for the challenge's generator and modulus and the private ephemeral
/// `secret`, is 32 bytes long, as the proof packet needs.
pub open spec fn public_key_fits(d: Seq<u8>, secret: Seq<u8>) -> bool {
    nat_to_le(
        abs(
            pow(le_value(challenge_g(d)) as int, le_value(secret)) % (le_value(
                challenge_n(d),
            ) as int),
        ),
    ).len() == 32
}

/// The two sessions differ at most in the handshake state.
pub open spec fn same_but_srp(a: Session, b: Session) -> bool {
    &&& a.config == b.config
    &&& a.selected_realm == b.selected_realm
    &&& a.me == b.me
    &&& a.spells == b.spells
    &&& a.is_casting == b.is_casting
    &&& a.in_world == b.in_world
}

/// Starts the handshake when the login challenge is accepted.
pub struct Handler;

impl Handler {
    /// Answers the challenge with a private ephemeral drawn at random.
    pub fn handle(&mut self, input: &mut HandlerInput) -> (result: Result<
        Vec<HandlerOutput>,
        HandlerError,
    >)
        requires
            old(input).wf(),
            challenge_fits(old(input).data@) ==> le_value(challenge_n(old(input).data@)) > 0,
        ensures
            final(input).wf(),
            exists|secret: Seq<u8>|
                secret.len() == 19 && #[trigger] Self::answered_with(
                    *old(input),
                    *final(input),
                    result,
                    secret,
                ),
    {
        let secret = random_private_ephemeral();
        let result = self.handle_with_private_ephemeral(input, secret);
        assert(Self::answered_with(*old(input), *input, result, secret@));
        result
    }

    /// What `handle` does with the private ephemeral `secret`: besides `answered`, the
    /// answer succeeds exactly when `A` takes the 32 bytes of the proof packet, and the
    /// handshake keeps `secret` as `a`.
    pub open spec fn answered_with(
        before: HandlerInput,
        after: HandlerInput,
        result: Result<Vec<HandlerOutput>, HandlerError>,
        secret: Seq<u8>,
    ) -> bool {
        &&& Self::answered(before, after, result)
        &&& (challenge_fits(before.data@) && before.session.config is Some) ==> (result is Ok
            <==> public_key_fits(before.data@, secret))
        &&& result is Ok ==> after.session.srp->Some_0.private_ephemeral() == le_value(secret)
    }

    /// What `handle` does, for any private ephemeral.
    pub open spec fn answered(
        before: HandlerInput,
        after: HandlerInput,
        result: Result<Vec<HandlerOutput>, HandlerError>,
    ) -> bool {
        let d = before.data@;
        if !challenge_fits(d) {
            result == Err::<Vec<HandlerOutput>, HandlerError>(
                HandlerError::Field(FieldError::CannotRead),
            ) && after == before
        } else if before.session.config is None {
            result == Err::<Vec<HandlerOutput>, HandlerError>(HandlerError::ConfigNotSet)
                && after == before
        } else {
            let c = before.session.config->Some_0.connection_data;
            match result {
                Ok(out) => {
                    &&& after.data == before.data
                    &&& after.opcode == before.opcode
                    &&& after.data_storage == before.data_storage
                    &&& same_but_srp(after.session, before.session)
                    &&& after.session.srp matches Some(s) && {
                        &&& handshake_of(s, d, encode_utf8(c.account@), encode_utf8(c.password@))
                        &&& s.public_ephemeral_bytes().len() == 32
                        &&& out.len() == 3
                        &&& is_response_with(
                            out[0],
                            server_opcode_name(before.opcode),
                            challenge_details(d),
                        )
                        &&& is_debug_message(
                            out[1],
                            "Session key created"@,
                            Some(hex_chars(s.session_key_bytes())),
                        )
                        &&& is_packet(
                            out[2],
                            Opcode::LOGIN_PROOF as u32,
                            login_frame(Opcode::LOGIN_PROOF, login_proof_body(s)),
                        )
                    }
                },
                Err(e) => e == HandlerError::ShortPublicEphemeral && after == before,
            }
        }
    }

    /// Answers the challenge with the given private ephemeral `a`.
    pub fn handle_with_private_ephemeral(
        &mut self,
        input: &mut HandlerInput,
        secret: [u8; 19],
    ) -> (result: Result<Vec<HandlerOutput>, HandlerError>)
        requires
            old(input).wf(),
            challenge_fits(old(input).data@) ==> le_value(challenge_n(old(input).data@)) > 0,
        ensures
            final(input).wf(),
            Self::answered_with(*old(input), *final(input), result, secret@),
    {
        let challenge = match LoginChallengeResponse::from_bytes(input.data.as_slice()) {
            Ok(c) => c,
            Err(e) => {
                return Err(HandlerError::Field(e));
            },
        };
        let (account, password) = match &input.session.config {
            Some(config) => (
                config.connection_data.account.clone(),
                config.connection_data.password.clone(),
            ),
            None => {
                return Err(HandlerError::ConfigNotSet);
            },
        };
        let mut srp = Srp::with_private_ephemeral(
            challenge.n.as_slice(),
            challenge.g.as_slice(),
            &challenge.server_ephemeral,
            challenge.salt,
            secret,
        );
        let ghost fresh = srp;
        srp.calculate_session_key(account.as_str(), password.as_str());
        let ghost keyed = srp;
        let client_proof = srp.calculate_proof(account.as_str());
        proof {
            crate::crypto::srp::lemma_same_numbers(keyed, fresh);
            crate::crypto::srp::lemma_same_numbers(srp, keyed);
        }
        if !srp.public_ephemeral_is_full() {
            return Err(HandlerError::ShortPublicEphemeral);
        }
        let session_key = srp.session_key();
        let public_ephemeral = srp.public_ephemeral();
        let mut body: Vec<u8> = Vec::new();
        extend_bytes(&mut body, public_ephemeral.as_slice());
        extend_bytes(&mut body, client_proof.as_slice());
        let crc: [u8; 20] = [
            0xCD, 0xCB, 0xBD, 0x51, 0x88, 0x31, 0x5E, 0x6B, 0x4D, 0x19, 0x44, 0x9D, 0x49, 0x2D,
            0xBC, 0xFA, 0xF1, 0x56, 0xA3, 0x47,
        ];
        extend_bytes(&mut body, crc.as_slice());
        body.push(0u8);
        body.push(0u8);
        assert(crc@ =~= crc_hash());
        assert(body@ =~= login_proof_body(srp));
        let mut response: Vec<HandlerOutput> = Vec::new();
        response.push(
            HandlerOutput::ResponseMessage(
                Opcode::get_server_opcode_name(input.opcode),
                Some(PacketDetails::LoginChallenge(challenge)),
            ),
        );
        response.push(
            HandlerOutput::DebugMessage(
                "Session key created".to_string(),
                Some(encode_hex(session_key.as_slice())),
            ),
        );
        response.push(HandlerOutput::Data(login_packet(Opcode::LOGIN_PROOF, body.as_slice())));
        input.session.srp = Some(srp);
        Ok(response)
    }
}

} // verus!
