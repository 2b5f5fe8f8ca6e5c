//! The events that flow through the controller.

use vstd::prelude::*;
use crate::scales::traits::{ScaleCommand, ScaleInfo};
use crate::types::{BrewState, ScaleData};

verus! {

/// Top-level system event.
#[derive(Debug, Clone)]
pub enum SystemEvent {
    Scale(ScaleEvent),
    Brew(BrewEvent),
    User(UserEvent),
    Time(TimeEvent),
    Safety(SafetyEvent),
    Hardware(HardwareEvent),
    Network(NetworkEvent),
}

/// Scale-related events, received or inferred from the data.
#[derive(Debug, Clone)]
pub enum ScaleEvent {
    WeightChanged { data: ScaleData },
    Connected { info: ScaleInfo },
    Disconnected { reason: String },
    ButtonPressed(ScaleButton),
    TimerStarted { timestamp_ms: u32 },
    TimerStopped { timestamp_ms: u32 },
    TimerReset,
}

/// Scale buttons (inferred or explicit).
#[derive(Debug, Clone, Copy, PartialEq, Eq, Structural)]
pub enum ScaleButton {
    Tare,
    Timer,
    Power,
    Mode,
}

/// Brewing milestones. Weights are in centigrams.
#[derive(Debug, Clone)]
pub enum BrewEvent {
    StateChanged { from: BrewState, to: BrewState },
    Started { target_weight_cg: i32 },
    TargetWeightReached { actual_cg: i32, target_cg: i32 },
    PredictiveStopTriggered { predicted_overshoot_cg: i32 },
    Finished { final_weight_cg: i32, duration_ms: u32 },
    AutoTareTriggered { reason: String },
    ObjectDetected { weight_cg: i32 },
    ObjectRemoved,
}

/// User-initiated events (web interface, scale buttons).
#[derive(Debug, Clone, Copy, PartialEq, Eq, Structural)]
pub enum UserEvent {
    /// New target weight in centigrams.
    SetTargetWeight(i32),
    SetAutoTare(bool),
    SetPredictiveStop(bool),
    TareScale,
    StartBrewing,
    StopBrewing,
    ResetTimer,
    TestRelay,
    ResetOvershoot,
    StartWifiProvisioning,
    ResetWifiCredentials,
    EmergencyStop,
    RebootSystem,
}

/// Time-based events.
#[derive(Debug, Clone)]
pub enum TimeEvent {
    Tick,
    Timeout { id: String },
    SettlingTimeout,
    AutoTareDelay,
    PredictiveStopDelay { delay_ms: u32 },
}

/// Safety and error events.
#[derive(Debug, Clone)]
pub enum SafetyEvent {
    EmergencyStop { reason: String },
    DataTimeout { source: String },
    RelayStuck { state: bool },
    WatchdogTriggered,
    OverTemperature,
    SystemAlert { level: AlertLevel, message: String },
}

/// Severity of an alert.
#[derive(Debug, Clone, Copy, PartialEq, Eq, Structural)]
pub enum AlertLevel {
    Info,
    Warning,
    Error,
    Critical,
}

impl AlertLevel {
    /// Upper-case name of the level.
    pub fn as_str(&self) -> (r: &'static str)
        ensures
            *self == AlertLevel::Info ==> r@ == "INFO"@,
            *self == AlertLevel::Warning ==> r@ == "WARNING"@,
            *self == AlertLevel::Error ==> r@ == "ERROR"@,
            *self == AlertLevel::Critical ==> r@ == "CRITICAL"@,
    {
        match self {
            AlertLevel::Info => "INFO",
            AlertLevel::Warning => "WARNING",
            AlertLevel::Error => "ERROR",
            AlertLevel::Critical => "CRITICAL",
        }
    }
}

/// Hardware side effects.
#[derive(Debug, Clone)]
pub enum HardwareEvent {
    RelayOn,
    RelayOff,
    SendScaleCommand(ScaleCommand),
    DisplayUpdate { state: DisplayState },
    DisplayAlert { message: String, duration_ms: u64 },
}

/// What the display shows. Weights in centigrams, flow in cg/s.
#[derive(Debug, Clone)]
pub struct DisplayState {
    pub weight_cg: i32,
    pub target_weight_cg: i32,
    pub flow_rate_cg_per_s: i32,
    pub timer_running: bool,
    pub brew_state: String,
    pub ble_connected: bool,
    pub battery_percent: u8,
    pub error: Option<String>,
}

/// Network and connectivity events.
#[derive(Debug, Clone)]
pub enum NetworkEvent {
    WifiConnected { ssid: String },
    WifiDisconnected,
    BleConnected { device_name: String },
    BleDisconnected,
    WebSocketClientConnected,
    WebSocketClientDisconnected,
    ProvisioningStarted,
    ProvisioningCompleted,
}

/// Which events a filtered subscriber receives.
#[derive(Debug, Clone, Copy, PartialEq, Eq, Structural)]
pub enum EventFilter {
    Scale,
    Brew,
    User,
    Hardware,
}

impl EventFilter {
    /// Whether the filter lets `event` through: events of its own kind only.
    pub fn accepts(&self, event: &SystemEvent) -> (r: bool)
        ensures
            r == match *self {
                EventFilter::Scale => event is Scale,
                EventFilter::Brew => event is Brew,
                EventFilter::User => event is User,
                EventFilter::Hardware => event is Hardware,
            },
    {
        match (self, event) {
            (EventFilter::Scale, SystemEvent::Scale(_)) => true,
            (EventFilter::Brew, SystemEvent::Brew(_)) => true,
            (EventFilter::User, SystemEvent::User(_)) => true,
            (EventFilter::Hardware, SystemEvent::Hardware(_)) => true,
            _ => false,
        }
    }
}

} // verus!
