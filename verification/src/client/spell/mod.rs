//! Spells: which packets tell of them.

pub mod handle_initial_spells;
pub mod handle_spell_go;

use vstd::prelude::*;

use crate::client::opcodes::Opcode;
use crate::client::packet::HandlerKind;
use crate::client::session::HandlerInput;

verus! {

pub open spec fn spell_handlers(opcode: u16) -> Seq<HandlerKind> {
    if opcode == Opcode::SMSG_SPELL_GO {
        seq![HandlerKind::HandleSpellGo]
    } else if opcode == Opcode::SMSG_INITIAL_SPELLS {
        seq![HandlerKind::HandleInitialSpells]
    } else {
        seq![]
    }
}

/// Routes spell packets.
pub struct SpellProcessor;

impl SpellProcessor {
    pub fn get_handlers(input: &mut HandlerInput) -> (handlers: Vec<HandlerKind>)
        ensures
            *final(input) == *old(input),
            handlers@ == spell_handlers(old(input).opcode),
    {
        let mut handlers: Vec<HandlerKind> = Vec::new();
        if input.opcode == Opcode::SMSG_SPELL_GO {
            handlers.push(HandlerKind::HandleSpellGo);
        } else if input.opcode == Opcode::SMSG_INITIAL_SPELLS {
            handlers.push(HandlerKind::HandleInitialSpells);
        }
        assert(handlers@ =~= spell_handlers(input.opcode));
        handlers
    }
}

} // verus!
