//! Checks the proof the login server sends back.

use vstd::prelude::*;

use crate::client::packet::{is_error_message, HandlerError, HandlerOutput};
use crate::client::session::HandlerInput;
use crate::crypto::srp::expected_server_proof;
use crate::errors::FieldError;

verus! {

/// The login proof answer of the server.
pub struct LoginProofResponse {
    pub error: u8,
    pub server_proof: [u8; 20],
    pub account_flags: u32,
    pub survey_id: u32,
    pub unknown_flags: u16,
}

/// The answer is 31 bytes: error, server proof (20), account flags, survey id (4 each)
/// and unknown flags (2), all little-endian.
pub open spec fn proof_response_fits(d: Seq<u8>) -> bool {
    d.len() >= 31
}

impl LoginProofResponse {
    pub fn from_bytes(d: &[u8]) -> (r: Result<Self, FieldError>)
        ensures
            !proof_response_fits(d@) ==> r == Err::<Self, FieldError>(FieldError::CannotRead),
            proof_response_fits(d@) ==> {
                &&& r is Ok
                &&& r->Ok_0.error == d@[0]
                &&& r->Ok_0.server_proof@ == d@.subrange(1, 21)
                &&& r->Ok_0.account_flags as nat == crate::bytes::le_value(d@.subrange(21, 25))
                &&& r->Ok_0.survey_id as nat == crate::bytes::le_value(d@.subrange(25, 29))
                &&& r->Ok_0.unknown_flags as nat == crate::bytes::le_value(d@.subrange(29, 31))
            },
    {
        if d.len() < 31 {
            return Err(FieldError::CannotRead);
        }
        let mut reader = crate::client::reader::ByteReader::new(d);
        let error = reader.read_u8()?;
        let mut server_proof = [0u8; 20];
        let mut k: usize = 0;
        while k < 20
            invariant
                k <= 20,
                d@.len() >= 31,
                forall|m: int| 0 <= m < k ==> server_proof@[m] == d@[1 + m],
            decreases 20 - k,
        {
            server_proof[k] = d[1 + k];
            k = k + 1;
        }
        assert(server_proof@ =~= d@.subrange(1, 21));
        let mut tail = crate::client::reader::ByteReader::new(d);
        let _ = tail.skip(21);
        proof {
            assert(tail.rest() =~= d@.skip(21));
        }
        let account_flags = tail.read_u32_le()?;
        let survey_id = tail.read_u32_le()?;
        let unknown_flags = tail.read_u16_le()?;
        proof {
            assert(d@.skip(21).take(4) =~= d@.subrange(21, 25));
            assert(d@.skip(21).skip(4).take(4) =~= d@.subrange(25, 29));
            assert(d@.skip(21).skip(4).skip(4).take(2) =~= d@.subrange(29, 31));
        }
        Ok(LoginProofResponse { error, server_proof, account_flags, survey_id, unknown_flags })
    }
}

/// Drops the connection when the server proof is not the expected one.
pub struct Handler;

impl Handler {
    /// What the handler does with the answer.
    pub open spec fn answered(
        before: HandlerInput,
        after: HandlerInput,
        result: Result<Vec<HandlerOutput>, HandlerError>,
    ) -> bool {
        &&& (after == before)
        &&& (!proof_response_fits(before.data@) ==> result == Err::<Vec<HandlerOutput>, HandlerError>(
            HandlerError::Field(FieldError::CannotRead),
        ))
        &&& (proof_response_fits(before.data@) ==> {
            let srp = before.session.srp->Some_0;
            let valid = before.data@.subrange(1, 21) == expected_server_proof(
                srp.public_ephemeral_bytes(),
                srp.client_proof().unwrap(),
                srp.session_key_bytes(),
            );
            &&& result is Ok
            &&& valid ==> result->Ok_0@.len() == 0
            &&& !valid ==> {
                &&& result->Ok_0@.len() == 2
                &&& is_error_message(result->Ok_0@[0], "Proof is not valid"@)
                &&& result->Ok_0@[1] is Drop
            }
        })
    }

    pub fn handle(&mut self, input: &mut HandlerInput) -> (result: Result<
        Vec<HandlerOutput>,
        HandlerError,
    >)
        requires
            old(input).wf(),
            old(input).session.srp is Some,
            old(input).session.srp->Some_0.client_proof() is Some,
            old(input).session.srp->Some_0.public_ephemeral_bytes().len() == 32,
        ensures
            Self::answered(*old(input), *final(input), result),
    {
        let answer = match LoginProofResponse::from_bytes(input.data.as_slice()) {
            Ok(a) => a,
            Err(e) => {
                return Err(HandlerError::Field(e));
            },
        };
        let mut response: Vec<HandlerOutput> = Vec::new();
        let valid = match &mut input.session.srp {
            Some(srp) => srp.validate_proof(answer.server_proof),
            None => true,
        };
        if !valid {
            response.push(HandlerOutput::ErrorMessage("Proof is not valid".to_string(), None));
            response.push(HandlerOutput::Drop);
        }
        Ok(response)
    }
}

} // verus!
