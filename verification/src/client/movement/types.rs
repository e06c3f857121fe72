//! Movement flags and move types.

use vstd::prelude::*;

verus! {

#[non_exhaustive]
pub struct UnitMoveType;

impl UnitMoveType {
    pub const MOVE_WALK: u8 = 0;
    pub const MOVE_RUN: u8 = 1;
    pub const MOVE_RUN_BACK: u8 = 2;
    pub const MOVE_SWIM: u8 = 3;
    pub const MOVE_SWIM_BACK: u8 = 4;
    pub const MOVE_TURN_RATE: u8 = 5;
    pub const MOVE_FLIGHT: u8 = 6;
    pub const MOVE_FLIGHT_BACK: u8 = 7;
    pub const MOVE_PITCH_RATE: u8 = 8;
}

/// The movement opcodes a client may send.
#[non_exhaustive]
pub struct MovementOpcodes;

impl MovementOpcodes {
    pub const MSG_MOVE_START_FORWARD: u16 = 181;
    pub const MSG_MOVE_START_BACKWARD: u16 = 182;
    pub const MSG_MOVE_STOP: u16 = 183;
    pub const MSG_MOVE_START_STRAFE_LEFT: u16 = 184;
    pub const MSG_MOVE_START_STRAFE_RIGHT: u16 = 185;
    pub const MSG_MOVE_STOP_STRAFE: u16 = 186;
    pub const MSG_MOVE_JUMP: u16 = 187;
    pub const MSG_MOVE_START_TURN_LEFT: u16 = 188;
    pub const MSG_MOVE_START_TURN_RIGHT: u16 = 189;
    pub const MSG_MOVE_STOP_TURN: u16 = 190;
    pub const MSG_MOVE_START_PITCH_UP: u16 = 191;
    pub const MSG_MOVE_START_PITCH_DOWN: u16 = 192;
    pub const MSG_MOVE_STOP_PITCH: u16 = 193;
    pub const MSG_MOVE_FALL_LAND: u16 = 201;
    pub const MSG_MOVE_START_SWIM: u16 = 202;
    pub const MSG_MOVE_STOP_SWIM: u16 = 203;
    pub const MSG_MOVE_SET_FACING: u16 = 218;
    pub const MSG_MOVE_SET_PITCH: u16 = 219;
    pub const MSG_MOVE_WORLDPORT_ACK: u16 = 220;
    pub const MSG_MOVE_HEARTBEAT: u16 = 238;
}

/// Movement flags (a bit set of 32 bits).
#[non_exhaustive]
pub struct MovementFlags;

impl MovementFlags {
    pub const NONE: u32 = 0x00000000;
    pub const FORWARD: u32 = 0x00000001;
    pub const BACKWARD: u32 = 0x00000002;
    pub const STRAFE_LEFT: u32 = 0x00000004;
    pub const STRAFE_RIGHT: u32 = 0x00000008;
    pub const LEFT: u32 = 0x00000010;
    pub const RIGHT: u32 = 0x00000020;
    pub const PITCH_UP: u32 = 0x00000040;
    pub const PITCH_DOWN: u32 = 0x00000080;
    pub const WALKING: u32 = 0x00000100;
    pub const TAXI: u32 = 0x00000200;
    pub const DISABLE_GRAVITY: u32 = 0x00000400;
    pub const ROOT: u32 = 0x00000800;
    pub const JUMPING: u32 = 0x00001000;
    pub const FALLING_FAR: u32 = 0x00002000;
    pub const PENDING_STOP: u32 = 0x00004000;
    pub const PENDING_STRAFE_STOP: u32 = 0x00008000;
    pub const PENDING_FORWARD: u32 = 0x00010000;
    pub const PENDING_BACKWARD: u32 = 0x00020000;
    pub const PENDING_STRAFE_LEFT: u32 = 0x00040000;
    pub const PENDING_STRAFE_RIGHT: u32 = 0x00080000;
    pub const PENDING_ROOT: u32 = 0x00100000;
    pub const SWIMMING: u32 = 0x00200000;
    pub const ASCENDING: u32 = 0x00400000;
    pub const DESCENDING: u32 = 0x00800000;
    pub const CAN_FLY: u32 = 0x01000000;
    pub const FLYING: u32 = 0x02000000;
    pub const SPLINE_ELEVATION: u32 = 0x04000000;
    pub const SPLINE_ENABLED: u32 = 0x08000000;
    pub const WATERWALKING: u32 = 0x10000000;
    pub const FALLING_SLOW: u32 = 0x20000000;
    pub const HOVER: u32 = 0x40000000;
}

/// Extra movement flags (a bit set of 16 bits).
#[non_exhaustive]
pub struct MovementFlagsExtra;

impl MovementFlagsExtra {
    pub const NONE: u16 = 0x0000;
    pub const NO_STRAFE: u16 = 0x0001;
    pub const NO_JUMPING: u16 = 0x0002;
    pub const UNK3: u16 = 0x0004;
    pub const FULL_SPEED_TURNING: u16 = 0x0008;
    pub const FULL_SPEED_PITCHING: u16 = 0x0010;
    pub const ALWAYS_ALLOW_PITCHING: u16 = 0x0020;
    pub const UNK7: u16 = 0x0040;
    pub const UNK8: u16 = 0x0080;
    pub const UNK9: u16 = 0x0100;
    pub const UNK10: u16 = 0x0200;
    pub const INTERPOLATED_MOVEMENT: u16 = 0x0400;
    pub const INTERPOLATED_TURNING: u16 = 0x0800;
    pub const INTERPOLATED_PITCHING: u16 = 0x1000;
    pub const UNK14: u16 = 0x2000;
    pub const UNK15: u16 = 0x4000;
    pub const UNK16: u16 = 0x8000;
}

/// Spline flags (a bit set of 32 bits).
#[non_exhaustive]
pub struct SplineFlags;

impl SplineFlags {
    pub const NONE: u32 = 0x00000000;
    pub const DONE: u32 = 0x00000100;
    pub const FALLING: u32 = 0x00000200;
    pub const NO_SPLINE: u32 = 0x00000400;
    pub const PARABOLIC: u32 = 0x00000800;
    pub const WALKMODE: u32 = 0x00001000;
    pub const FLYING: u32 = 0x00002000;
    pub const ORIENTATION_FIXED: u32 = 0x00004000;
    pub const FINAL_POINT: u32 = 0x00008000;
    pub const FINAL_TARGET: u32 = 0x00010000;
    pub const FINAL_ANGLE: u32 = 0x00020000;
    pub const CATMULLROM: u32 = 0x00040000;
    pub const CYCLIC: u32 = 0x00080000;
    pub const ENTER_CYCLE: u32 = 0x00100000;
    pub const ANIMATION: u32 = 0x00200000;
    pub const FROZEN: u32 = 0x00400000;
    pub const TRANSPORT_ENTER: u32 = 0x00800000;
    pub const TRANSPORT_EXIT: u32 = 0x01000000;
    pub const UNKNOWN7: u32 = 0x02000000;
    pub const UNKNOWN8: u32 = 0x04000000;
    pub const ORIENTATION_INVERSED: u32 = 0x08000000;
    pub const UNKNOWN10: u32 = 0x10000000;
    pub const UNKNOWN11: u32 = 0x20000000;
    pub const UNKNOWN12: u32 = 0x40000000;
    pub const UNKNOWN13: u32 = 0x80000000;
}

} // verus!
