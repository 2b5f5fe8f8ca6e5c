//! Scale discovery, detection and event inference.

pub mod detectors;
pub mod event_detection;
pub mod integration_example;
pub mod scanner;
pub mod simple_scanner;
pub mod traits;
