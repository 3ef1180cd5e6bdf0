//! Ships: the servers players pick after logging in.

pub mod error;
pub mod handler;
