//! The Blue Burst login server: accounts, characters, the parameter files
//! and the ship list.

pub mod defaults;
pub mod handler;
pub mod paramfiles;
