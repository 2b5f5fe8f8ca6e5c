//! Gravel: weight-based espresso shot control for a Bookoo Themis Mini scale.
//!
//! The library holds the decision logic of the controller: the scale's wire
//! protocol, the brewing state machine with auto-tare and overshoot learning,
//! safety checks, event detection and scale discovery. Weights are carried in
//! centigrams (the scale's own resolution), flow rates in centigrams per second
//! and time in milliseconds supplied by the caller.

pub mod auto_tare;
pub mod ble;
pub mod ble_bindings;
pub mod bookoo_scale;
pub mod bounded;
pub mod brew_states;
pub mod brewing;
pub mod controller;
pub mod hardware;
pub mod nvs_storage;
pub mod overshoot;
pub mod protocol;
pub mod safety;
pub mod scales;
pub mod server;
pub mod state;
pub mod system;
pub mod text;
pub mod types;
pub mod wifi;
pub mod wifi_manager;
