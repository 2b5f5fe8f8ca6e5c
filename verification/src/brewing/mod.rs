//! The brewing state machine.

pub mod controller;
pub mod laws;
pub mod learning;
pub mod states;
