//! The agent of a host: starts and stops the dedicated server of the host when it is asked
//! to, and tells the store what the host is doing.

pub mod agent;
pub mod auth;
pub mod config;
pub mod discovery;
