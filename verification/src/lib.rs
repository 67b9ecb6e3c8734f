//! The decisions of a game fleet: who may log in and where, when servers start
//! and stop, and what each component writes to and reads from the shared store.

pub mod boundary;
pub mod client;
pub mod clock;
pub mod containers;
pub mod dedicated_server;
pub mod environment;
pub mod gatekeeper;
pub mod host_agent;
pub mod numbers;
pub mod orchestrator;
pub mod protocol;
pub mod store;
pub mod text;
pub mod text_laws;
