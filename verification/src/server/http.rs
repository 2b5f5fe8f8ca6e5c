//! Commands the web interface sends and the state it polls.

use vstd::prelude::*;
use crate::state::{brew_state_name, timer_state_name};
use crate::types::{ScaleData, SystemState};

verus! {

/// A command from the web interface. The target weight is in centigrams.
#[derive(Debug, Clone, Copy, PartialEq, Eq, Structural)]
pub enum WebSocketCommand {
    SetTargetWeight { weight_cg: i32 },
    SetAutoTare { enabled: bool },
    SetPredictiveStop { enabled: bool },
    TareScale,
    StartTimer,
    StopTimer,
    ResetTimer,
    ResetOvershoot,
    TestRelay,
}

/// A reading as the web interface shows it.
#[derive(Debug, Clone, Copy, PartialEq, Eq, Structural)]
pub struct ScaleDataMsg {
    pub weight_cg: i32,
    pub flow_rate_cg_per_s: i32,
    pub battery_percent: u8,
    pub timer_running: bool,
    pub timestamp_ms: u32,
}

/// The system state as the web interface shows it.
#[derive(Debug, Clone)]
pub struct SystemStateMsg {
    pub brew_state: String,
    pub timer_state: String,
    pub target_weight_cg: i32,
    pub auto_tare_enabled: bool,
    pub predictive_stop_enabled: bool,
    pub relay_enabled: bool,
    pub ble_connected: bool,
    pub error: Option<String>,
    pub overshoot_info: String,
}

/// The answer to a state poll.
#[derive(Debug, Clone)]
pub struct WebSocketResponse {
    pub scale_data: Option<ScaleDataMsg>,
    pub system_state: SystemStateMsg,
    pub timestamp: u64,
}

/// What a poll shows of a reading.
pub open spec fn scale_data_msg(d: ScaleData) -> ScaleDataMsg {
    ScaleDataMsg {
        weight_cg: d.weight_cg,
        flow_rate_cg_per_s: d.flow_rate_cg_per_s,
        battery_percent: d.battery_percent,
        timer_running: d.timer_running,
        timestamp_ms: d.timestamp_ms,
    }
}

/// The answer to a state poll at `timestamp` (seconds since the epoch): the
/// last reading, the states by name, the configuration, the flags and the
/// last error.
pub fn build_state_response(state: &SystemState, timestamp: u64) -> (r: WebSocketResponse)
    ensures
        r.scale_data == match state.scale_data {
            Some(d) => Some(scale_data_msg(d)),
            None => None,
        },
        r.system_state.brew_state@ == brew_state_name(state.brew_state),
        r.system_state.timer_state@ == timer_state_name(state.timer_state),
        r.system_state.target_weight_cg == state.config.target_weight_cg,
        r.system_state.auto_tare_enabled == state.config.auto_tare,
        r.system_state.predictive_stop_enabled == state.config.predictive_stop,
        r.system_state.relay_enabled == state.relay_enabled,
        r.system_state.ble_connected == state.ble_connected,
        r.system_state.error == state.last_error,
        r.system_state.overshoot_info@ == "Learning data not available"@,
        r.timestamp == timestamp,
{
    let scale_data = match state.scale_data {
        Some(d) => Some(
            ScaleDataMsg {
                weight_cg: d.weight_cg,
                flow_rate_cg_per_s: d.flow_rate_cg_per_s,
                battery_percent: d.battery_percent,
                timer_running: d.timer_running,
                timestamp_ms: d.timestamp_ms,
            },
        ),
        None => None,
    };
    let brew = match state.brew_state {
        crate::types::BrewState::Idle => "Idle",
        crate::types::BrewState::Brewing => "Brewing",
        crate::types::BrewState::BrewSettling => "BrewSettling",
    };
    let timer = match state.timer_state {
        crate::types::TimerState::Idle => "Idle",
        crate::types::TimerState::Running => "Running",
        crate::types::TimerState::Paused => "Paused",
    };
    let error = match &state.last_error {
        Some(e) => Some(e.clone()),
        None => None,
    };
    WebSocketResponse {
        scale_data,
        system_state: SystemStateMsg {
            brew_state: String::from_str(brew),
            timer_state: String::from_str(timer),
            target_weight_cg: state.config.target_weight_cg,
            auto_tare_enabled: state.config.auto_tare,
            predictive_stop_enabled: state.config.predictive_stop,
            relay_enabled: state.relay_enabled,
            ble_connected: state.ble_connected,
            error,
            overshoot_info: String::from_str("Learning data not available"),
        },
        timestamp,
    }
}

} // verus!
