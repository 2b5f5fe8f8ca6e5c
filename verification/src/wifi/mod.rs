//! Wi-Fi status and BLE provisioning texts.

pub mod provisioning;
