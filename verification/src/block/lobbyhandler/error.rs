//! Errors of lobby operations.

use vstd::prelude::*;

verus! {

/// Why a lobby operation failed.
#[derive(Clone, Copy, Debug, PartialEq, Eq, Structural)]
pub enum LobbyError {
    /// The operation failed because the lobby is full.
    IsFull,
    /// The player specified is already in this lobby.
    AlreadyInLobby,
    /// The player specified is not in this lobby.
    NotInLobby,
    /// An IO error occurred.
    Io,
}

} // verus!
