//! The orchestrator: keeps enough servers running and no more.

pub mod config;
pub mod ports;
pub mod registry;
pub mod scaler;
pub mod tick;
pub mod tick_laws;
pub mod local;
pub mod fleet;
pub mod lifecycle;
