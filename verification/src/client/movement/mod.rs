//! Movement of the players around: which packets tell of it.

pub mod detect_motion;
pub mod types;

use vstd::prelude::*;

use crate::bytes::le_value;
use crate::client::opcodes::Opcode;
use crate::client::packet::HandlerKind;
use crate::client::session::HandlerInput;

verus! {

/// The movement opcodes the client follows.
pub open spec fn is_tracked_movement(opcode: u16) -> bool {
    ||| opcode == Opcode::MSG_MOVE_START_FORWARD
    ||| opcode == Opcode::MSG_MOVE_START_BACKWARD
    ||| opcode == Opcode::MSG_MOVE_JUMP
    ||| opcode == Opcode::MSG_MOVE_HEARTBEAT
    ||| opcode == Opcode::MSG_MOVE_START_TURN_LEFT
    ||| opcode == Opcode::MSG_MOVE_START_TURN_RIGHT
    ||| opcode == Opcode::MSG_MOVE_STOP
    ||| opcode == Opcode::MSG_MOVE_STOP_STRAFE
    ||| opcode == Opcode::MSG_MOVE_STOP_TURN
    ||| opcode == Opcode::MSG_MOVE_START_PITCH_UP
    ||| opcode == Opcode::MSG_MOVE_START_PITCH_DOWN
    ||| opcode == Opcode::MSG_MOVE_STOP_PITCH
    ||| opcode == Opcode::MSG_MOVE_FALL_LAND
    ||| opcode == Opcode::MSG_MOVE_SET_PITCH
    ||| opcode == Opcode::MSG_MOVE_START_SWIM
    ||| opcode == Opcode::MSG_MOVE_STOP_SWIM
    ||| opcode == Opcode::MSG_MOVE_SET_FACING
}

fn followed_movement(opcode: u16) -> (followed: bool)
    ensures
        followed == is_tracked_movement(opcode),
{
    opcode == Opcode::MSG_MOVE_START_FORWARD || opcode == Opcode::MSG_MOVE_START_BACKWARD
        || opcode == Opcode::MSG_MOVE_JUMP || opcode == Opcode::MSG_MOVE_HEARTBEAT
        || opcode == Opcode::MSG_MOVE_START_TURN_LEFT || opcode == Opcode::MSG_MOVE_START_TURN_RIGHT
        || opcode == Opcode::MSG_MOVE_STOP || opcode == Opcode::MSG_MOVE_STOP_STRAFE
        || opcode == Opcode::MSG_MOVE_STOP_TURN || opcode == Opcode::MSG_MOVE_START_PITCH_UP
        || opcode == Opcode::MSG_MOVE_START_PITCH_DOWN || opcode == Opcode::MSG_MOVE_STOP_PITCH
        || opcode == Opcode::MSG_MOVE_FALL_LAND || opcode == Opcode::MSG_MOVE_SET_PITCH
        || opcode == Opcode::MSG_MOVE_START_SWIM || opcode == Opcode::MSG_MOVE_STOP_SWIM
        || opcode == Opcode::MSG_MOVE_SET_FACING
}

/// The opcode a packet carries after its two size bytes (16 bits, little-endian).
pub open spec fn embedded_opcode(data: Seq<u8>) -> u16 {
    le_value(data.subrange(2, 4)) as u16
}

/// Reads the embedded opcode.
pub fn read_embedded_opcode(data: &Vec<u8>) -> (opcode: u16)
    requires
        data@.len() >= 4,
    ensures
        opcode == embedded_opcode(data@),
        opcode as nat == le_value(data@.subrange(2, 4)),
{
    let lo = data[2];
    let hi = data[3];
    proof {
        let s = data@.subrange(2, 4);
        assert(s.drop_first().drop_first() =~= Seq::<u8>::empty());
        assert(s[0] == lo && s[1] == hi);
        assert(s.drop_first()[0] == hi);
        reveal_with_fuel(le_value, 3);
        assert(le_value(s) == lo as nat + 256 * hi as nat);
    }
    lo as u16 + 256 * hi as u16
}

/// Routes movement packets to the motion handler.
pub struct MovementProcessor;

impl MovementProcessor {
    /// Takes the opcode from the packet bytes; a tracked movement becomes the input's
    /// opcode and goes to the motion handler, anything else to no handler.
    pub fn process_input(input: &mut HandlerInput) -> (handlers: Vec<HandlerKind>)
        requires
            old(input).data@.len() >= 4,
        ensures
            ({
                let opcode = embedded_opcode(old(input).data@);
                if is_tracked_movement(opcode) {
                    &&& handlers@ == seq![HandlerKind::DetectMotion]
                    &&& *final(input) == (HandlerInput { opcode, ..*old(input) })
                } else {
                    &&& handlers@.len() == 0
                    &&& *final(input) == *old(input)
                }
            }),
    {
        let opcode = read_embedded_opcode(&input.data);
        let mut handlers: Vec<HandlerKind> = Vec::new();
        if followed_movement(opcode) {
            input.opcode = opcode;
            handlers.push(HandlerKind::DetectMotion);
            assert(handlers@ =~= seq![HandlerKind::DetectMotion]);
        }
        handlers
    }
}

} // verus!
