//! The character list of the account, routed by the opcode inside the packet bytes.

pub mod get_characters_list;
pub mod player_login;
pub mod types;

use vstd::prelude::*;

use crate::client::movement::{embedded_opcode, read_embedded_opcode};
use crate::client::opcodes::Opcode;
use crate::client::packet::HandlerKind;
use crate::client::session::HandlerInput;

verus! {

/// Routes the character list by the opcode inside the packet bytes.
pub struct CharactersProcessor;

impl CharactersProcessor {
    pub fn process_input(input: &mut HandlerInput) -> (handlers: Vec<HandlerKind>)
        requires
            old(input).data@.len() >= 4,
        ensures
            ({
                let opcode = embedded_opcode(old(input).data@);
                if opcode == Opcode::SMSG_CHAR_ENUM {
                    &&& handlers@ == seq![HandlerKind::GetCharactersList, HandlerKind::PlayerLogin]
                    &&& *final(input) == (HandlerInput { opcode, ..*old(input) })
                } else {
                    &&& handlers@.len() == 0
                    &&& *final(input) == *old(input)
                }
            }),
    {
        let opcode = read_embedded_opcode(&input.data);
        let mut handlers: Vec<HandlerKind> = Vec::new();
        if opcode == Opcode::SMSG_CHAR_ENUM {
            input.opcode = opcode;
            handlers.push(HandlerKind::GetCharactersList);
            handlers.push(HandlerKind::PlayerLogin);
            assert(handlers@ =~= seq![HandlerKind::GetCharactersList, HandlerKind::PlayerLogin]);
        }
        handlers
    }
}

} // verus!
