//! Core logic of a dead man's switch: liveness tracking, threshold-based
//! activation with an exactly-once gate, heartbeat authentication, and the
//! composition of the check-in and activation messages.

pub mod clock;
pub mod config;
pub mod email;
pub mod startup;
pub mod state;
pub mod token;
