//! Message framing for the Blue Burst and patch protocols.

pub mod bb;
pub mod bytes;
pub mod patch;
