//! System-wide events.

pub mod events;
