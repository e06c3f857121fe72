pub mod auth;
pub mod movement;
pub mod opcodes;
pub mod reader;
pub mod player;
pub mod realm;
pub mod chat;
pub mod characters;
pub mod flow;
pub mod guid;
pub mod handlers;
pub mod packet;
pub mod session;
pub mod spell;
pub mod trade;
pub mod warden;

pub use opcodes::Opcode;
pub use player::types::{Class, FieldType, Gender, ObjectField, PlayerField, Race, UnitField};
