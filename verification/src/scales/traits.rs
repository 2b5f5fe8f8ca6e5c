//! Scale abstraction shared by every supported scale brand.

use vstd::prelude::*;

verus! {

/// Commands every scale understands.
#[derive(Debug, Clone, Copy, PartialEq, Eq, Structural)]
pub enum ScaleCommand {
    Tare,
    StartTimer,
    StopTimer,
    ResetTimer,
}

/// What a scale can do.
#[derive(Debug, Clone, Copy, PartialEq, Eq, Structural)]
pub struct ScaleCapabilities {
    pub has_timer: bool,
    pub has_flow_rate: bool,
    pub has_battery_level: bool,
    pub supports_tare: bool,
    pub supports_auto_off: bool,
}

/// Identity and capabilities of a scale.
#[derive(Debug, Clone)]
pub struct ScaleInfo {
    pub brand: String,
    pub model: String,
    pub version: Option<String>,
    pub capabilities: ScaleCapabilities,
}

/// Interface of a connected smart scale.
pub trait SmartScale {
    /// Scale information and capabilities.
    fn get_info(&self) -> &ScaleInfo;

    /// Whether the scale is currently connected.
    fn is_connected(&self) -> bool;
}

/// A scale attached over USB.
pub trait UsbScale: SmartScale {
    fn get_vendor_id(&self) -> u16;

    fn get_product_id(&self) -> u16;
}

} // verus!
