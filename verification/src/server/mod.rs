//! The web interface's messages.

pub mod http;
