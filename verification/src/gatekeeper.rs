//! The gatekeeper: lets players in and sends each to a server with room.

pub mod config;
pub mod servers;
pub mod sessions;
pub mod allocation;
pub mod login;
pub mod stream;
