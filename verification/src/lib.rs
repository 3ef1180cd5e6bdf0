//! Game-server logic for a Phantasy Star Online: Blue Burst server: lobby and
//! party membership, enemy instance generation, experience awards, message
//! framing and the login-side data handling, each with a verified contract.

pub mod args;
pub mod bb;
pub mod block;
pub mod config;
pub mod db;
pub mod game;
pub mod login;
pub mod maps;
pub mod message;
pub mod pat;
pub mod services;
pub mod ship;
pub mod util;
