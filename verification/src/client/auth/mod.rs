//! The login-server part of the protocol: challenge, proof and realm list.

pub mod check_proof_code;
pub mod get_realmlist;
pub mod login_challenge;
pub mod login_proof;
pub mod request_realmlist;
pub mod types;
pub mod validate_proof;

use vstd::prelude::*;

use crate::client::opcodes::Opcode;
use crate::client::packet::HandlerKind;
use crate::client::session::HandlerInput;

verus! {

/// The handlers of a login-server packet, by the low byte of its opcode.
pub open spec fn auth_handlers(opcode: u16) -> Seq<HandlerKind> {
    let code = opcode % 256;
    if code == Opcode::LOGIN_CHALLENGE {
        seq![HandlerKind::CheckProofCode, HandlerKind::LoginProof]
    } else if code == Opcode::LOGIN_PROOF {
        seq![HandlerKind::ValidateProof, HandlerKind::RequestRealmlist]
    } else if code == Opcode::REALM_LIST {
        seq![HandlerKind::GetRealmlist, HandlerKind::ConnectToRealm]
    } else {
        seq![]
    }
}

/// Routes the packets of the login server.
pub struct AuthProcessor;

impl AuthProcessor {
    pub fn get_handlers(input: &mut HandlerInput) -> (handlers: Vec<HandlerKind>)
        ensures
            *final(input) == *old(input),
            handlers@ == auth_handlers(old(input).opcode),
    {
        let code = (input.opcode % 256) as u8;
        let mut handlers: Vec<HandlerKind> = Vec::new();
        if code == Opcode::LOGIN_CHALLENGE {
            handlers.push(HandlerKind::CheckProofCode);
            handlers.push(HandlerKind::LoginProof);
        } else if code == Opcode::LOGIN_PROOF {
            handlers.push(HandlerKind::ValidateProof);
            handlers.push(HandlerKind::RequestRealmlist);
        } else if code == Opcode::REALM_LIST {
            handlers.push(HandlerKind::GetRealmlist);
            handlers.push(HandlerKind::ConnectToRealm);
        }
        assert(handlers@ =~= auth_handlers(input.opcode));
        handlers
    }
}

} // verus!
