//! Hardware the controller drives.

pub mod display;
pub mod relay;
