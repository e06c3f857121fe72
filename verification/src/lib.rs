//! A verified core for a World of Warcraft (WotLK 3.3.5) protocol client: opcode tables,
//! update-field tables, packet layouts, the RC4 header cipher, the SRP6 login handshake
//! and the decisions the client takes on each incoming packet.

pub mod bytes;
pub mod client;
pub mod compression;
pub mod crypto;
pub mod errors;
pub mod ipc;
pub mod text;
pub mod config;
