//! The dedicated server: lets players with a session join, and tells the orchestrator how
//! many there are.

pub mod config;
pub mod game;
pub mod link;
pub mod players;
pub mod session;
