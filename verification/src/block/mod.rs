//! Blocks: lobbies and parties of a ship.

pub mod client;
pub mod handler;
pub mod lobbyhandler;
pub mod slots;
pub mod partyhandler;
