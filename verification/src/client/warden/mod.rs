//! The anti-cheat module of the server: which packets belong to it.

use vstd::prelude::*;

use crate::client::opcodes::Opcode;
use crate::client::packet::HandlerKind;
use crate::client::session::HandlerInput;

verus! {

pub open spec fn warden_handlers(opcode: u16) -> Seq<HandlerKind> {
    if opcode == Opcode::SMSG_WARDEN_DATA {
        seq![HandlerKind::WardenSendData]
    } else {
        seq![]
    }
}

/// Routes warden packets.
pub struct WardenProcessor;

impl WardenProcessor {
    pub fn get_handlers(input: &mut HandlerInput) -> (handlers: Vec<HandlerKind>)
        ensures
            *final(input) == *old(input),
            handlers@ == warden_handlers(old(input).opcode),
    {
        let mut handlers: Vec<HandlerKind> = Vec::new();
        if input.opcode == Opcode::SMSG_WARDEN_DATA {
            handlers.push(HandlerKind::WardenSendData);
        }
        assert(handlers@ =~= warden_handlers(input.opcode));
        handlers
    }
}

} // verus!
