//! Services of the server and their clients.

pub mod client;
pub mod patch;
pub mod shipgate;

use vstd::prelude::*;

verus! {

/// Which message namespace a service's clients speak.
#[derive(Clone, Copy, Debug, PartialEq, Eq, Structural)]
pub enum ServiceType {
    /// The patch namespace.
    Patch,
    /// The Blue Burst namespace.
    Bb,
}

} // verus!
