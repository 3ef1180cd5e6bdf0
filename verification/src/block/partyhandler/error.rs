//! Errors of party operations.

use vstd::prelude::*;

verus! {

/// Why a party operation failed.
#[derive(Clone, Copy, Debug, PartialEq, Eq, Structural)]
pub enum PartyError {
    /// The party has no free slot.
    IsFull,
    /// The player is not in this party.
    NotInParty,
    /// The player is not bursting (loading into the party).
    NotBursting,
}

} // verus!
