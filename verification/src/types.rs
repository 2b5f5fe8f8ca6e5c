use vstd::prelude::*;
use crate::bounded::{log_items, logs_clone, logs_new};

verus! {

/// Timer state of the scale as tracked by the controller.
#[derive(Debug, Clone, Copy, PartialEq, Eq, Structural)]
pub enum TimerState {
    Idle,
    Running,
    Paused,
}

/// Coarse brewing state shown to the user.
#[derive(Debug, Clone, Copy, PartialEq, Eq, Structural)]
pub enum BrewState {
    Idle,
    Brewing,
    BrewSettling,
}

/// State of the auto-tare detector.
#[derive(Debug, Clone, Copy, PartialEq, Eq, Structural)]
pub enum AutoTareState {
    Empty,
    Loading,
    StableObject,
    Unloading,
}

/// One decoded notification of the scale.
///
/// `weight_cg` is the weight in centigrams (hundredths of a gram) and
/// `flow_rate_cg_per_s` the flow in centigrams per second, both signed, exactly
/// as the scale encodes them. `received_at_ms` is the controller's clock when
/// the frame arrived.
#[derive(Debug, Clone, Copy, PartialEq, Eq, Structural)]
pub struct ScaleData {
    pub timestamp_ms: u32,
    pub weight_cg: i32,
    pub flow_rate_cg_per_s: i32,
    pub battery_percent: u8,
    pub timer_running: bool,
    pub received_at_ms: u64,
}

} // verus!

verus! {

/// Readings of an auto-tare window may differ by at most this much (0.5 g).
pub const TARE_STABILITY_THRESHOLD_CG: i32 = 50;
/// Number of readings an auto-tare window holds.
pub const TARE_STABILITY_COUNT: usize = 5;
/// No second auto-tare within this time of the last one.
pub const TARE_COOLDOWN_MS: u64 = 2000;
/// Settling time of the timer-driven brew state machine.
pub const BREW_SETTLING_TIMEOUT_MS: u64 = 2000;
/// Number of overshoot measurements the learning keeps.
pub const OVERSHOOT_HISTORY_SIZE: usize = 5;
/// Safety margin of predictions (2.0 g).
pub const PREDICTION_SAFETY_MARGIN_CG: i32 = 200;

/// Absolute value.
pub open spec fn abs(x: int) -> int {
    if x < 0 { -x } else { x }
}

/// Milliseconds elapsed from `earlier` to `now`; zero when the clock reads
/// earlier than `earlier`.
pub open spec fn elapsed_ms(now: u64, earlier: u64) -> int {
    if now >= earlier { now - earlier } else { 0 }
}

/// Milliseconds elapsed from `earlier` to `now`, never negative.
pub fn elapsed_since(now: u64, earlier: u64) -> (r: u64)
    ensures
        r == elapsed_ms(now, earlier),
{
    if now >= earlier { now - earlier } else { 0 }
}

/// User-facing brewing configuration.
#[derive(Debug, Clone, Copy, PartialEq, Eq, Structural)]
pub struct BrewConfig {
    pub target_weight_cg: i32,
    pub auto_tare: bool,
    pub predictive_stop: bool,
}

impl Default for BrewConfig {
    /// A 36 g shot with auto-tare and predictive stopping on.
    fn default() -> (r: Self)
        ensures
            r.target_weight_cg == 3600,
            r.auto_tare,
            r.predictive_stop,
    {
        BrewConfig { target_weight_cg: 3600, auto_tare: true, predictive_stop: true }
    }
}

/// Everything the controller shows about itself.
#[derive(Debug)]
pub struct SystemState {
    pub scale_data: Option<ScaleData>,
    pub timer_state: TimerState,
    pub brew_state: BrewState,
    pub auto_tare_state: AutoTareState,
    pub config: BrewConfig,
    pub relay_enabled: bool,
    pub ble_connected: bool,
    pub wifi_connected: bool,
    pub last_error: Option<String>,
    pub log_messages: heapless::Vec<String, 100>,
}

impl Clone for SystemState {
    /// A copy with the same fields and the same log.
    fn clone(&self) -> (r: Self)
        ensures
            r.scale_data == self.scale_data,
            r.timer_state == self.timer_state,
            r.brew_state == self.brew_state,
            r.auto_tare_state == self.auto_tare_state,
            r.config == self.config,
            r.relay_enabled == self.relay_enabled,
            r.ble_connected == self.ble_connected,
            r.wifi_connected == self.wifi_connected,
            r.last_error == self.last_error,
            log_items(r.log_messages) == log_items(self.log_messages),
    {
        let last_error = match &self.last_error {
            Some(e) => Some(e.clone()),
            None => None,
        };
        SystemState {
            scale_data: self.scale_data,
            timer_state: self.timer_state,
            brew_state: self.brew_state,
            auto_tare_state: self.auto_tare_state,
            config: self.config,
            relay_enabled: self.relay_enabled,
            ble_connected: self.ble_connected,
            wifi_connected: self.wifi_connected,
            last_error,
            log_messages: logs_clone(&self.log_messages),
        }
    }
}

impl Default for SystemState {
    /// Idle, disconnected, relay off, default configuration, empty log.
    fn default() -> (r: Self)
        ensures
            r.scale_data is None,
            r.timer_state == TimerState::Idle,
            r.brew_state == BrewState::Idle,
            r.auto_tare_state == AutoTareState::Empty,
            r.config == (BrewConfig { target_weight_cg: 3600, auto_tare: true, predictive_stop: true }),
            !r.relay_enabled,
            !r.ble_connected,
            !r.wifi_connected,
            r.last_error is None,
            log_items(r.log_messages) == Seq::<Seq<char>>::empty(),
    {
        SystemState {
            scale_data: None,
            timer_state: TimerState::Idle,
            brew_state: BrewState::Idle,
            auto_tare_state: AutoTareState::Empty,
            config: BrewConfig::default(),
            relay_enabled: false,
            ble_connected: false,
            wifi_connected: false,
            last_error: None,
            log_messages: logs_new(),
        }
    }
}

} // verus!
