//! The test client: many players, steered from one prompt.

pub mod commands;
pub mod login;
pub mod play;
