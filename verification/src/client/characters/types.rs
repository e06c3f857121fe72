//! A character of the account as the character list shows it.

use vstd::prelude::*;

verus! {

/// A position in the world; each coordinate is held as the bits of an IEEE-754 single
/// (`f32::from_bits` gives the number).
#[derive(Clone, Copy, Debug, PartialEq, Eq, Structural)]
pub struct Position {
    pub x: u32,
    pub y: u32,
    pub z: u32,
    pub orientation: u32,
}

#[derive(Clone, Debug)]
pub struct Character {
    pub guid: u64,
    pub name: String,
    pub race: u8,
    pub class: u8,
    pub gender: u8,
    pub level: u8,
    pub position: Position,
}

} // verus!
