//! The brewing state machine with its killswitch, auto-tare and overshoot
//! learning.
//!
//! The machine is a plain state and a context; [`BrewController::handle_input`]
//! takes one input (and the current time) and returns the outputs it decided
//! on. The controller performs the outputs.

use vstd::prelude::*;
use crate::auto_tare::{
    auto_tare_decide, auto_tare_transition, history_push, history_window_stable, in_tare_cooldown,
    is_empty_reading, push_weight_history, reading_is_empty, tare_cooldown_active, window_stable,
    EMPTY_THRESHOLD_CG,
};
use crate::bounded::{
    output_items, outputs_new, outputs_push, overshoot_items, overshoots_clear,
    overshoots_len, overshoots_new, overshoots_push, overshoots_remove_first, weight_items,
    weights_clear, weights_new,
};
use crate::brewing::learning::{
    confidence_next, confidence_update, delay_next, delay_update, ewma_next, ewma_update,
    learning_rate, learning_rate_for, overshoots_bounded, MAX_STOP_DELAY_MS, MIN_STOP_DELAY_MS,
    OVERSHOOT_MAGNITUDE_BOUND,
};
use crate::overshoot::{bounded_history_push, FLOW_STOPPED_CG_PER_S, INITIAL_STOP_DELAY_MS};
use crate::system::events::UserEvent;
use crate::types::{BrewState as StatusBrewState, abs, AutoTareState, ScaleData, OVERSHOOT_HISTORY_SIZE, TARE_STABILITY_COUNT};

verus! {

/// Inputs of the state machine. Weights are in centigrams.
#[derive(Debug, Clone, Copy, PartialEq, Eq, Structural)]
pub enum BrewInput {
    EnableSystem,
    DisableSystem,
    BleEnabled,
    BleDisabled,
    BleScanning,
    BleConnecting,
    WifiConnected,
    WifiDisconnected,
    WifiConnecting,
    ScaleData(ScaleData),
    ScaleConnected,
    ScaleDisconnected,
    UserCommand(UserEvent),
    TargetWeightReached { weight_cg: i32, target_cg: i32 },
    FlowStopped,
    SettlingTimeout,
    EmergencyStop,
    AutoTareTriggered,
    AutoTareEnabled,
    AutoTareDisabled,
    PredictiveStopTriggered { predicted_final_weight_cg: i32 },
    OvershootRecorded { overshoot_cg: i32 },
    OvershootReset,
    Tick,
    DelayedStopTimeout,
}

/// Outputs of the state machine, performed by the controller.
#[derive(Debug, Clone, PartialEq, Eq)]
pub enum BrewOutput {
    StartTimer,
    StopTimer,
    TareScale,
    RelayOn,
    RelayOff,
    EnableBle,
    DisableBle,
    StartBleScanning,
    StopBleScanning,
    ConnectToWifi { ssid: String, password: String },
    DisconnectWifi,
    StartWifiProvisioning,
    StateChanged { from: SystemState, to: SystemState },
    SystemEnabled,
    SystemDisabled,
    ScaleConnectionChanged { connected: bool },
    NetworkStatusChanged { ble_enabled: bool, wifi_connected: bool },
    PredictiveStopTriggered,
    BrewingStarted,
    BrewingFinished,
    DisplayUpdate,
    AutoTareStateChanged { from: AutoTareState, to: AutoTareState },
    AutoTareExecuted,
    PredictiveStopScheduled { delay_ms: i32, predicted_weight_cg: i32 },
    OvershootLearningUpdated { delay_ms: i32, ewma_cg: i64, confidence_permille: u32 },
    OvershootControllerReset,
}

/// States of the machine.
#[derive(Debug, Clone, Copy, PartialEq, Eq, Structural)]
pub enum SystemState {
    /// Killswitch engaged: scale input is ignored.
    SystemDisabled,
    BleDisabled,
    BleEnabled,
    BleScanning,
    BleConnecting,
    WifiDisconnected,
    WifiConnecting,
    WifiConnected,
    ScaleDisconnected,
    Idle,
    Brewing,
    Settling,
}

/// Brewing state of the older interface.
#[derive(Debug, Clone, Copy, PartialEq, Eq, Structural)]
pub enum BrewState {
    Idle,
    Brewing,
    Settling,
}

/// Context shared by all states.
pub struct BrewContext {
    pub settle_start_time_ms: Option<u64>,
    pub last_weight_cg: Option<i32>,
    pub current_weight_cg: i32,
    pub target_weight_cg: i32,
    pub settling_timeout_ms: u64,
    pub timer_running: bool,
    pub ble_enabled: bool,
    pub ble_scanning: bool,
    pub wifi_connected: bool,
    pub wifi_connecting: bool,
    pub scale_connected: bool,
    pub auto_tare_enabled: bool,
    pub auto_tare_state: AutoTareState,
    pub auto_tare_stable_weight_cg: i32,
    pub auto_tare_weight_history: heapless::Vec<i32, 10>,
    pub auto_tare_last_tare_time_ms: Option<u64>,
    pub auto_tare_brewing_cooldown_time_ms: Option<u64>,
    pub auto_tare_empty_threshold_cg: i32,
    pub auto_tare_stable_readings_needed: usize,
    pub overshoot_stop_delay_ms: i32,
    pub overshoot_history: heapless::Vec<i64, 5>,
    pub overshoot_pending_predicted_stop: bool,
    pub overshoot_ewma_cg: i64,
    pub overshoot_learning_rate_pct: u32,
    pub overshoot_confidence_permille: u32,
    pub overshoot_brew_count: u32,
    pub overshoot_pending_stop_time_ms: Option<u64>,
    pub system_enabled: bool,
    pub outputs: heapless::Vec<BrewOutput, 10>,
}

/// Mathematical state of a [`BrewContext`].
pub struct BrewContextView {
    pub settle_start_time_ms: Option<u64>,
    pub last_weight_cg: Option<i32>,
    pub current_weight_cg: i32,
    pub target_weight_cg: i32,
    pub settling_timeout_ms: u64,
    pub timer_running: bool,
    pub ble_enabled: bool,
    pub ble_scanning: bool,
    pub wifi_connected: bool,
    pub wifi_connecting: bool,
    pub scale_connected: bool,
    pub auto_tare_enabled: bool,
    pub auto_tare_state: AutoTareState,
    pub auto_tare_stable_weight_cg: i32,
    pub auto_tare_weight_history: Seq<i32>,
    pub auto_tare_last_tare_time_ms: Option<u64>,
    pub auto_tare_brewing_cooldown_time_ms: Option<u64>,
    pub auto_tare_empty_threshold_cg: i32,
    pub auto_tare_stable_readings_needed: usize,
    pub overshoot_stop_delay_ms: i32,
    pub overshoot_history: Seq<i64>,
    pub overshoot_pending_predicted_stop: bool,
    pub overshoot_ewma_cg: i64,
    pub overshoot_learning_rate_pct: u32,
    pub overshoot_confidence_permille: u32,
    pub overshoot_brew_count: u32,
    pub overshoot_pending_stop_time_ms: Option<u64>,
    pub system_enabled: bool,
    pub outputs: Seq<BrewOutput>,
}

impl View for BrewContext {
    type V = BrewContextView;

    open spec fn view(&self) -> BrewContextView {
        BrewContextView {
            settle_start_time_ms: self.settle_start_time_ms,
            last_weight_cg: self.last_weight_cg,
            current_weight_cg: self.current_weight_cg,
            target_weight_cg: self.target_weight_cg,
            settling_timeout_ms: self.settling_timeout_ms,
            timer_running: self.timer_running,
            ble_enabled: self.ble_enabled,
            ble_scanning: self.ble_scanning,
            wifi_connected: self.wifi_connected,
            wifi_connecting: self.wifi_connecting,
            scale_connected: self.scale_connected,
            auto_tare_enabled: self.auto_tare_enabled,
            auto_tare_state: self.auto_tare_state,
            auto_tare_stable_weight_cg: self.auto_tare_stable_weight_cg,
            auto_tare_weight_history: weight_items(self.auto_tare_weight_history),
            auto_tare_last_tare_time_ms: self.auto_tare_last_tare_time_ms,
            auto_tare_brewing_cooldown_time_ms: self.auto_tare_brewing_cooldown_time_ms,
            auto_tare_empty_threshold_cg: self.auto_tare_empty_threshold_cg,
            auto_tare_stable_readings_needed: self.auto_tare_stable_readings_needed,
            overshoot_stop_delay_ms: self.overshoot_stop_delay_ms,
            overshoot_history: overshoot_items(self.overshoot_history),
            overshoot_pending_predicted_stop: self.overshoot_pending_predicted_stop,
            overshoot_ewma_cg: self.overshoot_ewma_cg,
            overshoot_learning_rate_pct: self.overshoot_learning_rate_pct,
            overshoot_confidence_permille: self.overshoot_confidence_permille,
            overshoot_brew_count: self.overshoot_brew_count,
            overshoot_pending_stop_time_ms: self.overshoot_pending_stop_time_ms,
            system_enabled: self.system_enabled,
            outputs: output_items(self.outputs),
        }
    }
}

/// Appends an output to a batch of at most ten.
pub open spec fn opush(s: Seq<BrewOutput>, o: BrewOutput) -> Seq<BrewOutput> {
    if s.len() < 10 { s.push(o) } else { s }
}

impl BrewContextView {
    /// The context with one more output.
    pub open spec fn emit(self, o: BrewOutput) -> BrewContextView {
        BrewContextView { outputs: opush(self.outputs, o), ..self }
    }

    /// The learning state stays within its ranges: the delay between 100 ms
    /// and 2 s, the confidence at most one, the learning rate at most one,
    /// the moving average and every kept overshoot within the overshoot bound.
    pub open spec fn wf(self) -> bool {
        &&& MIN_STOP_DELAY_MS <= self.overshoot_stop_delay_ms <= MAX_STOP_DELAY_MS
        &&& self.overshoot_confidence_permille <= 1000
        &&& self.overshoot_learning_rate_pct <= 100
        &&& -OVERSHOOT_MAGNITUDE_BOUND <= self.overshoot_ewma_cg <= OVERSHOOT_MAGNITUDE_BOUND
        &&& overshoots_bounded(self.overshoot_history)
    }
}

pub(crate) fn emit(ctx: &mut BrewContext, o: BrewOutput)
    ensures
        final(ctx)@ == old(ctx)@.emit(o),
{
    let _ = outputs_push(&mut ctx.outputs, o);
}

impl Default for BrewContext {
    /// Context at start-up: a 36 g target, 5 s settling, BLE and Wi-Fi off,
    /// auto-tare on with an empty scale, a 500 ms stop delay with no
    /// measurements and a 30 % learning rate, system enabled.
    fn default() -> (r: Self)
        ensures
            r@ == default_context_view(),
    {
        BrewContext {
            settle_start_time_ms: None,
            last_weight_cg: None,
            current_weight_cg: 0,
            target_weight_cg: 3600,
            settling_timeout_ms: 5000,
            timer_running: false,
            ble_enabled: false,
            ble_scanning: false,
            wifi_connected: false,
            wifi_connecting: false,
            scale_connected: false,
            auto_tare_enabled: true,
            auto_tare_state: AutoTareState::Empty,
            auto_tare_stable_weight_cg: 0,
            auto_tare_weight_history: weights_new(),
            auto_tare_last_tare_time_ms: None,
            auto_tare_brewing_cooldown_time_ms: None,
            auto_tare_empty_threshold_cg: EMPTY_THRESHOLD_CG,
            auto_tare_stable_readings_needed: TARE_STABILITY_COUNT,
            overshoot_stop_delay_ms: INITIAL_STOP_DELAY_MS,
            overshoot_history: overshoots_new(),
            overshoot_pending_predicted_stop: false,
            overshoot_ewma_cg: 0,
            overshoot_learning_rate_pct: 30,
            overshoot_confidence_permille: 0,
            overshoot_brew_count: 0,
            overshoot_pending_stop_time_ms: None,
            system_enabled: true,
            outputs: outputs_new(),
        }
    }
}

/// The context at start-up.
pub open spec fn default_context_view() -> BrewContextView {
    BrewContextView {
        settle_start_time_ms: None,
        last_weight_cg: None,
        current_weight_cg: 0,
        target_weight_cg: 3600,
        settling_timeout_ms: 5000,
        timer_running: false,
        ble_enabled: false,
        ble_scanning: false,
        wifi_connected: false,
        wifi_connecting: false,
        scale_connected: false,
        auto_tare_enabled: true,
        auto_tare_state: AutoTareState::Empty,
        auto_tare_stable_weight_cg: 0,
        auto_tare_weight_history: Seq::empty(),
        auto_tare_last_tare_time_ms: None,
        auto_tare_brewing_cooldown_time_ms: None,
        auto_tare_empty_threshold_cg: EMPTY_THRESHOLD_CG,
        auto_tare_stable_readings_needed: TARE_STABILITY_COUNT,
        overshoot_stop_delay_ms: INITIAL_STOP_DELAY_MS,
        overshoot_history: Seq::empty(),
        overshoot_pending_predicted_stop: false,
        overshoot_ewma_cg: 0,
        overshoot_learning_rate_pct: 30,
        overshoot_confidence_permille: 0,
        overshoot_brew_count: 0,
        overshoot_pending_stop_time_ms: None,
        system_enabled: true,
        outputs: Seq::empty(),
    }
}

// ---------------------------------------------------------------------------
// Auto-tare inside the machine
// ---------------------------------------------------------------------------

/// One auto-tare step on a reading while idle: the new context and whether to
/// tare. Nothing happens while auto-tare is off, the timer runs, the system is
/// disabled or a cooldown holds; otherwise the reading joins the history, the
/// detector takes one step and a change of its state is reported.
pub open spec fn spec_should_auto_tare(v: BrewContextView, w: i32, now_ms: u64) -> (BrewContextView, bool) {
    if !v.auto_tare_enabled || v.timer_running || !v.system_enabled || in_tare_cooldown(
        v.auto_tare_brewing_cooldown_time_ms,
        v.auto_tare_last_tare_time_ms,
        now_ms,
    ) {
        (v, false)
    } else {
        let h = history_push(v.auto_tare_weight_history, w);
        let stable = window_stable(h, v.auto_tare_stable_readings_needed as nat);
        let empty = is_empty_reading(w, v.auto_tare_empty_threshold_cg);
        let t = auto_tare_transition(v.auto_tare_state, v.auto_tare_stable_weight_cg, h, stable, empty, w);
        let v1 = BrewContextView {
            auto_tare_weight_history: h,
            auto_tare_state: t.0,
            auto_tare_stable_weight_cg: t.1,
            ..v
        };
        let v2 = if t.0 != v.auto_tare_state {
            v1.emit(BrewOutput::AutoTareStateChanged { from: v.auto_tare_state, to: t.0 })
        } else {
            v1
        };
        (v2, t.2)
    }
}

fn should_auto_tare(ctx: &mut BrewContext, current_weight: i32, now_ms: u64) -> (r: bool)
    ensures
        (final(ctx)@, r) == spec_should_auto_tare(old(ctx)@, current_weight, now_ms),
{
    if !ctx.auto_tare_enabled || ctx.timer_running || !ctx.system_enabled {
        return false;
    }
    if tare_cooldown_active(ctx.auto_tare_brewing_cooldown_time_ms, ctx.auto_tare_last_tare_time_ms, now_ms) {
        return false;
    }
    push_weight_history(&mut ctx.auto_tare_weight_history, current_weight);
    let is_stable = history_window_stable(&ctx.auto_tare_weight_history, ctx.auto_tare_stable_readings_needed);
    let is_empty = reading_is_empty(current_weight, ctx.auto_tare_empty_threshold_cg);
    let old_state = ctx.auto_tare_state;
    let (next_state, next_weight, tare) = auto_tare_decide(
        old_state,
        ctx.auto_tare_stable_weight_cg,
        &ctx.auto_tare_weight_history,
        is_stable,
        is_empty,
        current_weight,
    );
    ctx.auto_tare_state = next_state;
    ctx.auto_tare_stable_weight_cg = next_weight;
    if next_state != old_state {
        emit(ctx, BrewOutput::AutoTareStateChanged { from: old_state, to: next_state });
    }
    tare
}

/// After a brew: a 10 s auto-tare cooldown starts, and the cup still on the
/// scale (above the empty threshold) is kept as the current object without a
/// new tare; otherwise the scale counts as empty. The change is reported.
pub open spec fn spec_auto_tare_brewing_finished(v: BrewContextView, w: i32, now_ms: u64) -> BrewContextView {
    let v1 = BrewContextView { auto_tare_brewing_cooldown_time_ms: Some(now_ms), ..v };
    if w > v.auto_tare_empty_threshold_cg {
        BrewContextView {
            auto_tare_state: AutoTareState::StableObject,
            auto_tare_stable_weight_cg: w,
            auto_tare_weight_history: Seq::empty(),
            ..v1
        }.emit(BrewOutput::AutoTareStateChanged { from: v.auto_tare_state, to: AutoTareState::StableObject })
    } else {
        BrewContextView {
            auto_tare_state: AutoTareState::Empty,
            auto_tare_stable_weight_cg: 0,
            ..v1
        }.emit(BrewOutput::AutoTareStateChanged { from: v.auto_tare_state, to: AutoTareState::Empty })
    }
}

fn auto_tare_brewing_finished(ctx: &mut BrewContext, current_weight: i32, now_ms: u64)
    ensures
        final(ctx)@ == spec_auto_tare_brewing_finished(old(ctx)@, current_weight, now_ms),
{
    ctx.auto_tare_brewing_cooldown_time_ms = Some(now_ms);
    let old_state = ctx.auto_tare_state;
    if current_weight > ctx.auto_tare_empty_threshold_cg {
        ctx.auto_tare_state = AutoTareState::StableObject;
        ctx.auto_tare_stable_weight_cg = current_weight;
        emit(ctx, BrewOutput::AutoTareStateChanged { from: old_state, to: AutoTareState::StableObject });
        weights_clear(&mut ctx.auto_tare_weight_history);
    } else {
        ctx.auto_tare_state = AutoTareState::Empty;
        ctx.auto_tare_stable_weight_cg = 0;
        emit(ctx, BrewOutput::AutoTareStateChanged { from: old_state, to: AutoTareState::Empty });
    }
}

// ---------------------------------------------------------------------------
// Overshoot learning inside the machine
// ---------------------------------------------------------------------------

/// Brew count after one more brew (it stays at its maximum there).
pub open spec fn count_next(n: u32) -> u32 {
    if n == u32::MAX { n } else { (n + 1) as u32 }
}

/// Learning from the overshoot seen once the flow stopped after a predicted
/// stop: the overshoot joins the last five, the moving average moves by the
/// learning rate, the delay follows the average (with the confidence held so
/// far), the brew count grows, the confidence and with it the learning rate
/// are recomputed, and the result is reported. Without a pending predicted
/// stop nothing happens.
pub open spec fn spec_record_overshoot_learning(v: BrewContextView, overshoot: i64) -> BrewContextView {
    if !v.overshoot_pending_predicted_stop {
        v
    } else {
        let h = bounded_history_push(v.overshoot_history, OVERSHOOT_HISTORY_SIZE as nat, overshoot);
        let e = ewma_next(v.overshoot_learning_rate_pct, overshoot, v.overshoot_ewma_cg) as i64;
        let d = delay_next(v.overshoot_stop_delay_ms, e, v.overshoot_confidence_permille) as i32;
        let n = count_next(v.overshoot_brew_count);
        let c = confidence_next(h, n) as u32;
        let rate = if h.len() < 3 { v.overshoot_learning_rate_pct } else { learning_rate_for(c as int) };
        BrewContextView {
            overshoot_pending_predicted_stop: false,
            overshoot_history: h,
            overshoot_ewma_cg: e,
            overshoot_stop_delay_ms: d,
            overshoot_brew_count: n,
            overshoot_confidence_permille: c,
            overshoot_learning_rate_pct: rate,
            ..v
        }.emit(BrewOutput::OvershootLearningUpdated { delay_ms: d, ewma_cg: e, confidence_permille: c })
    }
}

fn push_overshoot(ctx: &mut BrewContext, overshoot: i64)
    requires
        overshoots_bounded(old(ctx)@.overshoot_history),
        -OVERSHOOT_MAGNITUDE_BOUND <= overshoot <= OVERSHOOT_MAGNITUDE_BOUND,
    ensures
        final(ctx)@ == (BrewContextView {
            overshoot_history: bounded_history_push(old(ctx)@.overshoot_history, OVERSHOOT_HISTORY_SIZE as nat, overshoot),
            ..old(ctx)@
        }),
        overshoots_bounded(final(ctx)@.overshoot_history),
{
    let ghost h0 = overshoot_items(ctx.overshoot_history);
    if overshoots_len(&ctx.overshoot_history) >= OVERSHOOT_HISTORY_SIZE {
        overshoots_remove_first(&mut ctx.overshoot_history);
    }
    let pushed = overshoots_push(&mut ctx.overshoot_history, overshoot);
    proof {
        assert(pushed is Ok);
        let h = overshoot_items(ctx.overshoot_history);
        assert forall|i: int| 0 <= i < h.len() implies -OVERSHOOT_MAGNITUDE_BOUND <= #[trigger] h[i]
            <= OVERSHOOT_MAGNITUDE_BOUND by {
            if i < h.len() - 1 {
                if h0.len() >= OVERSHOOT_HISTORY_SIZE {
                    assert(h[i] == h0[i + 1]);
                } else {
                    assert(h[i] == h0[i]);
                }
            }
        }
    }
}

fn record_overshoot_learning(ctx: &mut BrewContext, overshoot: i64)
    requires
        old(ctx)@.wf(),
        -OVERSHOOT_MAGNITUDE_BOUND <= overshoot <= OVERSHOOT_MAGNITUDE_BOUND,
    ensures
        final(ctx)@ == spec_record_overshoot_learning(old(ctx)@, overshoot),
        final(ctx)@.wf(),
{
    if !ctx.overshoot_pending_predicted_stop {
        return;
    }
    ctx.overshoot_pending_predicted_stop = false;
    push_overshoot(ctx, overshoot);
    let e = ewma_update(ctx.overshoot_learning_rate_pct, overshoot, ctx.overshoot_ewma_cg);
    let d = delay_update(ctx.overshoot_stop_delay_ms, e, ctx.overshoot_confidence_permille);
    ctx.overshoot_ewma_cg = e;
    ctx.overshoot_stop_delay_ms = d;
    if ctx.overshoot_brew_count < u32::MAX {
        ctx.overshoot_brew_count = ctx.overshoot_brew_count + 1;
    }
    update_overshoot_confidence(ctx);
    let c = ctx.overshoot_confidence_permille;
    emit(ctx, BrewOutput::OvershootLearningUpdated { delay_ms: d, ewma_cg: e, confidence_permille: c });
}

fn update_overshoot_confidence(ctx: &mut BrewContext)
    requires
        overshoots_bounded(old(ctx)@.overshoot_history),
    ensures
        final(ctx)@ == (BrewContextView {
            overshoot_confidence_permille: confidence_next(old(ctx)@.overshoot_history, old(ctx)@.overshoot_brew_count) as u32,
            overshoot_learning_rate_pct: if old(ctx)@.overshoot_history.len() < 3 {
                old(ctx)@.overshoot_learning_rate_pct
            } else {
                learning_rate_for(confidence_next(old(ctx)@.overshoot_history, old(ctx)@.overshoot_brew_count))
            },
            ..old(ctx)@
        }),
        final(ctx)@.overshoot_confidence_permille <= 1000,
{
    let c = confidence_update(&ctx.overshoot_history, ctx.overshoot_brew_count);
    ctx.overshoot_confidence_permille = c;
    if overshoots_len(&ctx.overshoot_history) >= 3 {
        ctx.overshoot_learning_rate_pct = learning_rate(c);
    }
}

/// Back to the initial learning state, reported.
pub open spec fn spec_reset_overshoot_controller(v: BrewContextView) -> BrewContextView {
    BrewContextView {
        overshoot_history: Seq::empty(),
        overshoot_stop_delay_ms: INITIAL_STOP_DELAY_MS,
        overshoot_pending_predicted_stop: false,
        overshoot_ewma_cg: 0,
        overshoot_confidence_permille: 0,
        overshoot_brew_count: 0,
        overshoot_learning_rate_pct: 30,
        overshoot_pending_stop_time_ms: None,
        ..v
    }.emit(BrewOutput::OvershootControllerReset)
}

fn reset_overshoot_controller(ctx: &mut BrewContext)
    ensures
        final(ctx)@ == spec_reset_overshoot_controller(old(ctx)@),
{
    overshoots_clear(&mut ctx.overshoot_history);
    ctx.overshoot_stop_delay_ms = INITIAL_STOP_DELAY_MS;
    ctx.overshoot_pending_predicted_stop = false;
    ctx.overshoot_ewma_cg = 0;
    ctx.overshoot_confidence_permille = 0;
    ctx.overshoot_brew_count = 0;
    ctx.overshoot_learning_rate_pct = 30;
    ctx.overshoot_pending_stop_time_ms = None;
    emit(ctx, BrewOutput::OvershootControllerReset);
}

// ---------------------------------------------------------------------------
// Predictive stopping
// ---------------------------------------------------------------------------

/// Whether a reading calls for a predictive stop: the flow is positive, the
/// scale timer is past 2 s, weight is still missing, and the time the flow
/// needs to reach the target lies after the learned delay plus 200 ms and no
/// later than three times that. Compared exactly: `needed / flow` seconds
/// against the window in milliseconds.
pub open spec fn predictive_stop_due(delay_ms: i32, d: ScaleData, target: i32) -> bool {
    let needed = target - d.weight_cg;
    &&& d.flow_rate_cg_per_s > 0
    &&& d.timestamp_ms > 2000
    &&& needed > 0
    &&& (delay_ms + 200) * d.flow_rate_cg_per_s < needed * 1000
    &&& needed * 1000 <= 3 * (delay_ms + 200) * d.flow_rate_cg_per_s
}

/// Milliseconds the flow needs to add `needed` centigrams, rounded down.
pub open spec fn time_to_target_ms(needed: int, flow: int) -> int {
    needed * 1000 / flow
}

/// `now + delta`, stopping at the largest time.
pub open spec fn time_after(now: u64, delta: int) -> u64 {
    if now + delta > u64::MAX { u64::MAX } else { (now + delta) as u64 }
}

/// Schedules the stop: the learned delay is taken off the time to target,
/// leaving at least 100 ms, and the scheduled stop is reported.
pub open spec fn spec_schedule_delayed_stop(v: BrewContextView, time_to_target: int, now_ms: u64) -> BrewContextView {
    let comp = if time_to_target - v.overshoot_stop_delay_ms > 100 {
        time_to_target - v.overshoot_stop_delay_ms
    } else {
        100
    };
    BrewContextView { overshoot_pending_stop_time_ms: Some(time_after(now_ms, comp)), ..v }.emit(
        BrewOutput::PredictiveStopScheduled { delay_ms: comp as i32, predicted_weight_cg: 0 },
    )
}

/// Checks whether a reading calls for a predictive stop; if so, the predicted
/// final weight (the target, reached at the predicted time).
fn should_trigger_predictive_stop(ctx: &BrewContext, scale_data: &ScaleData, target_weight: i32) -> (r: Option<i32>)
    requires
        ctx@.wf(),
    ensures
        r is Some <==> predictive_stop_due(ctx@.overshoot_stop_delay_ms, *scale_data, target_weight),
        r is Some ==> r == Some(target_weight),
{
    if scale_data.flow_rate_cg_per_s <= 0 || scale_data.timestamp_ms <= 2000 {
        return None;
    }
    let needed: i64 = target_weight as i64 - scale_data.weight_cg as i64;
    if needed <= 0 {
        return None;
    }
    let flow = scale_data.flow_rate_cg_per_s as i64;
    let min_ms = ctx.overshoot_stop_delay_ms as i64 + 200;
    let max_ms = min_ms * 3;
    proof {
        assert(min_ms * flow <= 2200 * 0x8000_0000) by (nonlinear_arith)
            requires 0 <= min_ms <= 2200, 0 <= flow <= 0x8000_0000;
        assert(max_ms * flow <= 6600 * 0x8000_0000) by (nonlinear_arith)
            requires 0 <= max_ms <= 6600, 0 <= flow <= 0x8000_0000;
        assert(3 * min_ms * flow == max_ms * flow) by (nonlinear_arith)
            requires max_ms == min_ms * 3;
    }
    let scaled = needed * 1000;
    if min_ms * flow < scaled && scaled <= max_ms * flow {
        Some((scale_data.weight_cg as i64 + needed) as i32)
    } else {
        None
    }
}

fn schedule_delayed_stop(ctx: &mut BrewContext, time_to_target_ms: i64, now_ms: u64)
    requires
        old(ctx)@.wf(),
        0 <= time_to_target_ms <= 6600,
    ensures
        final(ctx)@ == spec_schedule_delayed_stop(old(ctx)@, time_to_target_ms as int, now_ms),
{
    let d = time_to_target_ms - ctx.overshoot_stop_delay_ms as i64;
    let compensated: i64 = if d > 100 { d } else { 100 };
    let stop_time: u64 = if now_ms > u64::MAX - (compensated as u64) { u64::MAX } else { now_ms + compensated as u64 };
    ctx.overshoot_pending_stop_time_ms = Some(stop_time);
    emit(ctx, BrewOutput::PredictiveStopScheduled { delay_ms: compensated as i32, predicted_weight_cg: 0 });
}

/// Whether the scheduled stop is due.
pub open spec fn delayed_stop_due(v: BrewContextView, now_ms: u64) -> bool {
    v.overshoot_pending_stop_time_ms matches Some(t) && now_ms >= t
}

fn check_delayed_stop_timeout(ctx: &BrewContext, now_ms: u64) -> (r: bool)
    ensures
        r == delayed_stop_due(ctx@, now_ms),
{
    if let Some(stop_time) = ctx.overshoot_pending_stop_time_ms {
        now_ms >= stop_time
    } else {
        false
    }
}

// ---------------------------------------------------------------------------
// States
// ---------------------------------------------------------------------------

/// Engaging the killswitch: the system is disabled and reports it (turning
/// the relay off where it may be on).
pub open spec fn spec_disable(v: BrewContextView, relay_off: bool) -> (SystemState, BrewContextView) {
    let v1 = BrewContextView { system_enabled: false, ..v }.emit(BrewOutput::SystemDisabled);
    (SystemState::SystemDisabled, if relay_off { v1.emit(BrewOutput::RelayOff) } else { v1 })
}

/// A Wi-Fi connection change, reported with the given BLE flag.
pub open spec fn spec_wifi(v: BrewContextView, connected: bool, ble_flag: bool) -> BrewContextView {
    BrewContextView { wifi_connected: connected, ..v }.emit(
        BrewOutput::NetworkStatusChanged { ble_enabled: ble_flag, wifi_connected: connected },
    )
}

/// Where an emergency stop leaves an active brew.
pub open spec fn after_emergency(v: BrewContextView) -> SystemState {
    if v.scale_connected { SystemState::Idle } else { SystemState::ScaleDisconnected }
}

/// Killswitch engaged: only re-enabling and the user's emergency stop act.
pub open spec fn step_system_disabled(v: BrewContextView, input: BrewInput) -> (SystemState, BrewContextView) {
    match input {
        BrewInput::EnableSystem => {
            let v1 = BrewContextView { system_enabled: true, ..v }.emit(BrewOutput::SystemEnabled);
            let next = if v.ble_enabled {
                if v.scale_connected { SystemState::Idle } else { SystemState::ScaleDisconnected }
            } else {
                SystemState::BleDisabled
            };
            (next, v1)
        },
        BrewInput::UserCommand(UserEvent::EmergencyStop) => (SystemState::SystemDisabled, v.emit(BrewOutput::RelayOff)),
        _ => (SystemState::SystemDisabled, v),
    }
}

pub open spec fn step_ble_disabled(v: BrewContextView, input: BrewInput) -> (SystemState, BrewContextView) {
    match input {
        BrewInput::DisableSystem => spec_disable(v, false),
        BrewInput::BleEnabled => (
            SystemState::BleEnabled,
            BrewContextView { ble_enabled: true, ..v }.emit(BrewOutput::EnableBle).emit(
                BrewOutput::NetworkStatusChanged { ble_enabled: true, wifi_connected: v.wifi_connected },
            ),
        ),
        BrewInput::EmergencyStop => (SystemState::BleDisabled, v.emit(BrewOutput::RelayOff)),
        _ => (SystemState::BleDisabled, v),
    }
}

pub open spec fn step_ble_enabled(v: BrewContextView, input: BrewInput) -> (SystemState, BrewContextView) {
    match input {
        BrewInput::DisableSystem => spec_disable(v, false),
        BrewInput::BleDisabled => (
            SystemState::BleDisabled,
            BrewContextView { ble_enabled: false, ..v }.emit(BrewOutput::DisableBle).emit(
                BrewOutput::NetworkStatusChanged { ble_enabled: false, wifi_connected: v.wifi_connected },
            ),
        ),
        BrewInput::BleScanning => (
            SystemState::BleScanning,
            BrewContextView { ble_scanning: true, ..v }.emit(BrewOutput::StartBleScanning),
        ),
        BrewInput::WifiConnected => (SystemState::BleEnabled, spec_wifi(v, true, true)),
        BrewInput::WifiDisconnected => (SystemState::BleEnabled, spec_wifi(v, false, true)),
        BrewInput::EmergencyStop => (SystemState::BleEnabled, v.emit(BrewOutput::RelayOff)),
        _ => (SystemState::BleEnabled, v),
    }
}

pub open spec fn step_ble_scanning(v: BrewContextView, input: BrewInput) -> (SystemState, BrewContextView) {
    match input {
        BrewInput::DisableSystem => spec_disable(v, false),
        BrewInput::BleDisabled => (
            SystemState::BleDisabled,
            BrewContextView { ble_enabled: false, ble_scanning: false, ..v }.emit(BrewOutput::StopBleScanning).emit(
                BrewOutput::DisableBle,
            ).emit(BrewOutput::NetworkStatusChanged { ble_enabled: false, wifi_connected: v.wifi_connected }),
        ),
        BrewInput::BleConnecting => (
            SystemState::BleConnecting,
            BrewContextView { ble_scanning: false, ..v }.emit(BrewOutput::StopBleScanning),
        ),
        BrewInput::ScaleConnected => (
            SystemState::Idle,
            BrewContextView { ble_scanning: false, scale_connected: true, ..v }.emit(BrewOutput::StopBleScanning).emit(
                BrewOutput::ScaleConnectionChanged { connected: true },
            ),
        ),
        BrewInput::WifiConnected => (SystemState::BleScanning, spec_wifi(v, true, true)),
        BrewInput::WifiDisconnected => (SystemState::BleScanning, spec_wifi(v, false, true)),
        BrewInput::EmergencyStop => (SystemState::BleScanning, v.emit(BrewOutput::RelayOff)),
        _ => (SystemState::BleScanning, v),
    }
}

pub open spec fn step_ble_connecting(v: BrewContextView, input: BrewInput) -> (SystemState, BrewContextView) {
    match input {
        BrewInput::DisableSystem => spec_disable(v, false),
        BrewInput::BleDisabled => (
            SystemState::BleDisabled,
            BrewContextView { ble_enabled: false, ble_scanning: false, ..v }.emit(BrewOutput::DisableBle).emit(
                BrewOutput::NetworkStatusChanged { ble_enabled: false, wifi_connected: v.wifi_connected },
            ),
        ),
        BrewInput::ScaleConnected => (
            SystemState::Idle,
            BrewContextView { scale_connected: true, ..v }.emit(BrewOutput::ScaleConnectionChanged { connected: true }),
        ),
        BrewInput::ScaleDisconnected => (SystemState::BleScanning, v),
        BrewInput::WifiConnected => (SystemState::BleConnecting, spec_wifi(v, true, true)),
        BrewInput::WifiDisconnected => (SystemState::BleConnecting, spec_wifi(v, false, true)),
        BrewInput::EmergencyStop => (SystemState::BleConnecting, v.emit(BrewOutput::RelayOff)),
        _ => (SystemState::BleConnecting, v),
    }
}

pub open spec fn step_scale_disconnected(v: BrewContextView, input: BrewInput) -> (SystemState, BrewContextView) {
    match input {
        BrewInput::DisableSystem => spec_disable(v, false),
        BrewInput::BleDisabled => (
            SystemState::BleDisabled,
            BrewContextView { ble_enabled: false, ..v }.emit(BrewOutput::DisableBle).emit(
                BrewOutput::NetworkStatusChanged { ble_enabled: false, wifi_connected: v.wifi_connected },
            ),
        ),
        BrewInput::BleScanning => (
            SystemState::BleScanning,
            BrewContextView { ble_scanning: true, ..v }.emit(BrewOutput::StartBleScanning),
        ),
        BrewInput::WifiConnected => (SystemState::ScaleDisconnected, spec_wifi(v, true, v.ble_enabled)),
        BrewInput::WifiDisconnected => (SystemState::ScaleDisconnected, spec_wifi(v, false, v.ble_enabled)),
        BrewInput::EmergencyStop => (SystemState::ScaleDisconnected, v.emit(BrewOutput::RelayOff)),
        BrewInput::ScaleConnected => (
            SystemState::Idle,
            BrewContextView { scale_connected: true, ..v }.emit(BrewOutput::ScaleConnectionChanged { connected: true }),
        ),
        _ => (SystemState::ScaleDisconnected, v),
    }
}

/// A reading while idle: the weight and timer flag are taken over, the display
/// refreshed, and auto-tare may tare (recording the time). When the reading
/// shows the scale timer running where it was not before, the brew starts:
/// the weight is remembered, the relay switched on and the brew reported.
pub open spec fn idle_scale_data(v: BrewContextView, d: ScaleData, now_ms: u64) -> (SystemState, BrewContextView) {
    let v1 = BrewContextView { current_weight_cg: d.weight_cg, timer_running: d.timer_running, ..v }.emit(
        BrewOutput::DisplayUpdate,
    );
    let (v2, tare) = spec_should_auto_tare(v1, d.weight_cg, now_ms);
    let v3 = if tare {
        BrewContextView { auto_tare_last_tare_time_ms: Some(now_ms), ..v2 }.emit(BrewOutput::AutoTareExecuted).emit(
            BrewOutput::TareScale,
        )
    } else {
        v2
    };
    if timer_starts(v, d) {
        (
            SystemState::Brewing,
            BrewContextView { last_weight_cg: Some(d.weight_cg), ..v3 }.emit(BrewOutput::RelayOn).emit(
                BrewOutput::BrewingStarted,
            ),
        )
    } else {
        (SystemState::Idle, v3)
    }
}

/// The reading shows the scale timer running while the machine had it
/// stopped.
pub open spec fn timer_starts(v: BrewContextView, d: ScaleData) -> bool {
    d.timer_running && !v.timer_running
}

pub open spec fn step_idle(v: BrewContextView, input: BrewInput, now_ms: u64) -> (SystemState, BrewContextView) {
    match input {
        BrewInput::DisableSystem => spec_disable(v, false),
        BrewInput::WifiConnected => (SystemState::Idle, spec_wifi(v, true, v.ble_enabled)),
        BrewInput::WifiDisconnected => (SystemState::Idle, spec_wifi(v, false, v.ble_enabled)),
        BrewInput::EmergencyStop => (SystemState::Idle, v.emit(BrewOutput::RelayOff)),
        BrewInput::ScaleDisconnected => (
            SystemState::ScaleDisconnected,
            BrewContextView { scale_connected: false, ..v }.emit(BrewOutput::ScaleConnectionChanged { connected: false }),
        ),
        BrewInput::ScaleData(d) => idle_scale_data(v, d, now_ms),
        BrewInput::UserCommand(UserEvent::StartBrewing) => (SystemState::Idle, v.emit(BrewOutput::StartTimer)),
        BrewInput::UserCommand(UserEvent::TareScale) => (SystemState::Idle, v.emit(BrewOutput::TareScale)),
        BrewInput::AutoTareEnabled => (SystemState::Idle, BrewContextView { auto_tare_enabled: true, ..v }),
        BrewInput::AutoTareDisabled => (SystemState::Idle, BrewContextView { auto_tare_enabled: false, ..v }),
        BrewInput::OvershootReset => (SystemState::Idle, spec_reset_overshoot_controller(v)),
        _ => (SystemState::Idle, v),
    }
}

/// Stopping a brew: stop the timer and the relay, start settling now.
pub open spec fn spec_stop_brew(v: BrewContextView, now_ms: u64) -> (SystemState, BrewContextView) {
    (
        SystemState::Settling,
        BrewContextView { settle_start_time_ms: Some(now_ms), ..v }.emit(BrewOutput::StopTimer).emit(BrewOutput::RelayOff),
    )
}

/// A reading while brewing. In order: take the reading over and refresh the
/// display; learn from the overshoot when the flow stopped (below 0.5 g/s)
/// after a predicted stop; schedule a predictive stop when the reading calls
/// for one; then stop when the scheduled stop is due, when the scale timer
/// stopped (relay off only), or when the target weight is reached (marking a
/// scheduled stop as a predicted one); otherwise keep brewing.
/// First part of a reading while brewing: the reading is taken over and the
/// display refreshed.
pub open spec fn brewing_take_reading(v: BrewContextView, d: ScaleData) -> BrewContextView {
    BrewContextView {
        current_weight_cg: d.weight_cg,
        last_weight_cg: Some(d.weight_cg),
        timer_running: d.timer_running,
        ..v
    }.emit(BrewOutput::DisplayUpdate)
}

/// Second part: learning from the overshoot when the flow stopped (below
/// 0.5 g/s) after a predicted stop.
pub open spec fn brewing_learn(v: BrewContextView, d: ScaleData) -> BrewContextView {
    if abs(d.flow_rate_cg_per_s as int) < FLOW_STOPPED_CG_PER_S && v.overshoot_pending_predicted_stop {
        spec_record_overshoot_learning(v, (d.weight_cg - v.target_weight_cg) as i64)
    } else {
        v
    }
}

/// Third part: scheduling a predictive stop when the reading calls for one.
pub open spec fn brewing_predict(v: BrewContextView, d: ScaleData, now_ms: u64) -> BrewContextView {
    if predictive_stop_due(v.overshoot_stop_delay_ms, d, v.target_weight_cg) {
        spec_schedule_delayed_stop(
            BrewContextView { overshoot_pending_predicted_stop: true, ..v },
            time_to_target_ms(v.target_weight_cg - d.weight_cg, d.flow_rate_cg_per_s as int),
            now_ms,
        ).emit(BrewOutput::PredictiveStopTriggered)
    } else {
        v
    }
}

/// A reading while brewing. In order: take the reading over and refresh the
/// display; learn from the overshoot when the flow stopped (below 0.5 g/s)
/// after a predicted stop; schedule a predictive stop when the reading calls
/// for one; then stop when the scheduled stop is due, when the scale timer
/// stopped (relay off only), or when the target weight is reached (marking a
/// scheduled stop as a predicted one); otherwise keep brewing.
pub open spec fn brewing_scale_data(v: BrewContextView, d: ScaleData, now_ms: u64) -> (SystemState, BrewContextView) {
    let w = d.weight_cg;
    let v3 = brewing_predict(brewing_learn(brewing_take_reading(v, d), d), d, now_ms);
    brewing_decide(v3, d, now_ms)
}

/// Last part: whether and how the brew stops.
pub open spec fn brewing_decide(v3: BrewContextView, d: ScaleData, now_ms: u64) -> (SystemState, BrewContextView) {
    let w = d.weight_cg;
    if delayed_stop_due(v3, now_ms) {
        spec_stop_brew(BrewContextView { overshoot_pending_stop_time_ms: None, ..v3 }, now_ms)
    } else if !d.timer_running {
        (
            SystemState::Settling,
            BrewContextView { timer_running: false, settle_start_time_ms: Some(now_ms), ..v3 }.emit(BrewOutput::RelayOff),
        )
    } else if w >= v3.target_weight_cg {
        spec_stop_brew(
            BrewContextView {
                overshoot_pending_predicted_stop: v3.overshoot_pending_stop_time_ms is Some
                    || v3.overshoot_pending_predicted_stop,
                overshoot_pending_stop_time_ms: None,
                ..v3
            },
            now_ms,
        )
    } else {
        (SystemState::Brewing, v3)
    }
}

pub open spec fn step_brewing(v: BrewContextView, input: BrewInput, now_ms: u64) -> (SystemState, BrewContextView) {
    match input {
        BrewInput::DisableSystem => spec_disable(v, true),
        BrewInput::WifiConnected => (SystemState::Brewing, spec_wifi(v, true, v.ble_enabled)),
        BrewInput::WifiDisconnected => (SystemState::Brewing, spec_wifi(v, false, v.ble_enabled)),
        BrewInput::EmergencyStop => (after_emergency(v), v.emit(BrewOutput::RelayOff)),
        BrewInput::ScaleDisconnected => (
            SystemState::ScaleDisconnected,
            BrewContextView { scale_connected: false, ..v }.emit(BrewOutput::ScaleConnectionChanged { connected: false }).emit(
                BrewOutput::RelayOff,
            ),
        ),
        BrewInput::ScaleData(d) => brewing_scale_data(v, d, now_ms),
        BrewInput::TargetWeightReached { .. } => spec_stop_brew(v, now_ms),
        BrewInput::UserCommand(UserEvent::StopBrewing) => spec_stop_brew(v, now_ms),
        BrewInput::UserCommand(UserEvent::TareScale) => (SystemState::Brewing, v.emit(BrewOutput::TareScale)),
        _ => (SystemState::Brewing, v),
    }
}

/// A reading while settling: the weight and timer flag are taken over and
/// the display refreshed. When the reading shows the scale timer running
/// where it was not before, a new brew starts: the weight is remembered, the
/// relay switched on and the brew reported.
pub open spec fn settling_scale_data(v: BrewContextView, d: ScaleData) -> (SystemState, BrewContextView) {
    let v1 = BrewContextView { current_weight_cg: d.weight_cg, timer_running: d.timer_running, ..v }.emit(
        BrewOutput::DisplayUpdate,
    );
    if timer_starts(v, d) {
        (
            SystemState::Brewing,
            BrewContextView { last_weight_cg: Some(d.weight_cg), ..v1 }.emit(BrewOutput::RelayOn).emit(
                BrewOutput::BrewingStarted,
            ),
        )
    } else {
        (SystemState::Settling, v1)
    }
}

pub open spec fn step_settling(v: BrewContextView, input: BrewInput, now_ms: u64) -> (SystemState, BrewContextView) {
    match input {
        BrewInput::DisableSystem => spec_disable(v, true),
        BrewInput::WifiConnected => (SystemState::Settling, spec_wifi(v, true, v.ble_enabled)),
        BrewInput::WifiDisconnected => (SystemState::Settling, spec_wifi(v, false, v.ble_enabled)),
        BrewInput::EmergencyStop => (after_emergency(v), v.emit(BrewOutput::RelayOff)),
        BrewInput::ScaleDisconnected => (
            SystemState::ScaleDisconnected,
            BrewContextView { scale_connected: false, ..v }.emit(BrewOutput::ScaleConnectionChanged { connected: false }),
        ),
        BrewInput::ScaleData(d) => settling_scale_data(v, d),
        BrewInput::FlowStopped | BrewInput::SettlingTimeout => (
            SystemState::Idle,
            spec_auto_tare_brewing_finished(v.emit(BrewOutput::BrewingFinished), v.current_weight_cg, now_ms),
        ),
        BrewInput::UserCommand(UserEvent::StartBrewing) => (
            SystemState::Brewing,
            v.emit(BrewOutput::StartTimer).emit(BrewOutput::RelayOn).emit(BrewOutput::BrewingStarted),
        ),
        BrewInput::UserCommand(UserEvent::TareScale) => (SystemState::Settling, v.emit(BrewOutput::TareScale)),
        _ => (SystemState::Settling, v),
    }
}

/// One step of the machine in any state. States the machine never enters
/// ignore every input.
#[verifier::opaque]
pub open spec fn brew_step(state: SystemState, v: BrewContextView, input: BrewInput, now_ms: u64) -> (SystemState, BrewContextView) {
    match state {
        SystemState::SystemDisabled => step_system_disabled(v, input),
        SystemState::BleDisabled => step_ble_disabled(v, input),
        SystemState::BleEnabled => step_ble_enabled(v, input),
        SystemState::BleScanning => step_ble_scanning(v, input),
        SystemState::BleConnecting => step_ble_connecting(v, input),
        SystemState::ScaleDisconnected => step_scale_disconnected(v, input),
        SystemState::Idle => step_idle(v, input, now_ms),
        SystemState::Brewing => step_brewing(v, input, now_ms),
        SystemState::Settling => step_settling(v, input, now_ms),
        _ => (state, v),
    }
}

fn disable(ctx: &mut BrewContext, relay_off: bool) -> (r: SystemState)
    requires
        old(ctx)@.wf(),
    ensures
        (r, final(ctx)@) == spec_disable(old(ctx)@, relay_off),
        final(ctx)@.wf(),
{
    ctx.system_enabled = false;
    emit(ctx, BrewOutput::SystemDisabled);
    if relay_off {
        emit(ctx, BrewOutput::RelayOff);
    }
    SystemState::SystemDisabled
}

fn wifi(ctx: &mut BrewContext, connected: bool, ble_flag: bool)
    requires
        old(ctx)@.wf(),
    ensures
        final(ctx)@ == spec_wifi(old(ctx)@, connected, ble_flag),
        final(ctx)@.wf(),
{
    ctx.wifi_connected = connected;
    emit(ctx, BrewOutput::NetworkStatusChanged { ble_enabled: ble_flag, wifi_connected: connected });
}

fn system_disabled(ctx: &mut BrewContext, event: &BrewInput) -> (r: SystemState)
    requires
        old(ctx)@.wf(),
    ensures
        (r, final(ctx)@) == step_system_disabled(old(ctx)@, *event),
        final(ctx)@.wf(),
{
    match event {
        BrewInput::EnableSystem => {
            ctx.system_enabled = true;
            emit(ctx, BrewOutput::SystemEnabled);
            if ctx.ble_enabled {
                if ctx.scale_connected {
                    SystemState::Idle
                } else {
                    SystemState::ScaleDisconnected
                }
            } else {
                SystemState::BleDisabled
            }
        },
        BrewInput::UserCommand(UserEvent::EmergencyStop) => {
            emit(ctx, BrewOutput::RelayOff);
            SystemState::SystemDisabled
        },
        _ => SystemState::SystemDisabled,
    }
}

fn ble_disabled(ctx: &mut BrewContext, event: &BrewInput) -> (r: SystemState)
    requires
        old(ctx)@.wf(),
    ensures
        (r, final(ctx)@) == step_ble_disabled(old(ctx)@, *event),
        final(ctx)@.wf(),
{
    match event {
        BrewInput::DisableSystem => disable(ctx, false),
        BrewInput::BleEnabled => {
            ctx.ble_enabled = true;
            emit(ctx, BrewOutput::EnableBle);
            let wifi_connected = ctx.wifi_connected;
            emit(ctx, BrewOutput::NetworkStatusChanged { ble_enabled: true, wifi_connected });
            SystemState::BleEnabled
        },
        BrewInput::EmergencyStop => {
            emit(ctx, BrewOutput::RelayOff);
            SystemState::BleDisabled
        },
        _ => SystemState::BleDisabled,
    }
}

fn ble_enabled(ctx: &mut BrewContext, event: &BrewInput) -> (r: SystemState)
    requires
        old(ctx)@.wf(),
    ensures
        (r, final(ctx)@) == step_ble_enabled(old(ctx)@, *event),
        final(ctx)@.wf(),
{
    match event {
        BrewInput::DisableSystem => disable(ctx, false),
        BrewInput::BleDisabled => {
            ctx.ble_enabled = false;
            emit(ctx, BrewOutput::DisableBle);
            let wifi_connected = ctx.wifi_connected;
            emit(ctx, BrewOutput::NetworkStatusChanged { ble_enabled: false, wifi_connected });
            SystemState::BleDisabled
        },
        BrewInput::BleScanning => {
            ctx.ble_scanning = true;
            emit(ctx, BrewOutput::StartBleScanning);
            SystemState::BleScanning
        },
        BrewInput::WifiConnected => {
            wifi(ctx, true, true);
            SystemState::BleEnabled
        },
        BrewInput::WifiDisconnected => {
            wifi(ctx, false, true);
            SystemState::BleEnabled
        },
        BrewInput::EmergencyStop => {
            emit(ctx, BrewOutput::RelayOff);
            SystemState::BleEnabled
        },
        _ => SystemState::BleEnabled,
    }
}

#[verifier::rlimit(40)]
fn ble_scanning(ctx: &mut BrewContext, event: &BrewInput) -> (r: SystemState)
    requires
        old(ctx)@.wf(),
    ensures
        (r, final(ctx)@) == step_ble_scanning(old(ctx)@, *event),
        final(ctx)@.wf(),
{
    match event {
        BrewInput::DisableSystem => disable(ctx, false),
        BrewInput::BleDisabled => {
            ctx.ble_enabled = false;
            ctx.ble_scanning = false;
            emit(ctx, BrewOutput::StopBleScanning);
            emit(ctx, BrewOutput::DisableBle);
            let wifi_connected = ctx.wifi_connected;
            emit(ctx, BrewOutput::NetworkStatusChanged { ble_enabled: false, wifi_connected });
            SystemState::BleDisabled
        },
        BrewInput::BleConnecting => {
            ctx.ble_scanning = false;
            emit(ctx, BrewOutput::StopBleScanning);
            SystemState::BleConnecting
        },
        BrewInput::ScaleConnected => {
            ctx.ble_scanning = false;
            ctx.scale_connected = true;
            emit(ctx, BrewOutput::StopBleScanning);
            emit(ctx, BrewOutput::ScaleConnectionChanged { connected: true });
            SystemState::Idle
        },
        BrewInput::WifiConnected => {
            wifi(ctx, true, true);
            SystemState::BleScanning
        },
        BrewInput::WifiDisconnected => {
            wifi(ctx, false, true);
            SystemState::BleScanning
        },
        BrewInput::EmergencyStop => {
            emit(ctx, BrewOutput::RelayOff);
            SystemState::BleScanning
        },
        _ => SystemState::BleScanning,
    }
}

fn ble_connecting(ctx: &mut BrewContext, event: &BrewInput) -> (r: SystemState)
    requires
        old(ctx)@.wf(),
    ensures
        (r, final(ctx)@) == step_ble_connecting(old(ctx)@, *event),
        final(ctx)@.wf(),
{
    match event {
        BrewInput::DisableSystem => disable(ctx, false),
        BrewInput::BleDisabled => {
            ctx.ble_enabled = false;
            ctx.ble_scanning = false;
            emit(ctx, BrewOutput::DisableBle);
            let wifi_connected = ctx.wifi_connected;
            emit(ctx, BrewOutput::NetworkStatusChanged { ble_enabled: false, wifi_connected });
            SystemState::BleDisabled
        },
        BrewInput::ScaleConnected => {
            ctx.scale_connected = true;
            emit(ctx, BrewOutput::ScaleConnectionChanged { connected: true });
            SystemState::Idle
        },
        BrewInput::ScaleDisconnected => SystemState::BleScanning,
        BrewInput::WifiConnected => {
            wifi(ctx, true, true);
            SystemState::BleConnecting
        },
        BrewInput::WifiDisconnected => {
            wifi(ctx, false, true);
            SystemState::BleConnecting
        },
        BrewInput::EmergencyStop => {
            emit(ctx, BrewOutput::RelayOff);
            SystemState::BleConnecting
        },
        _ => SystemState::BleConnecting,
    }
}

fn scale_disconnected(ctx: &mut BrewContext, event: &BrewInput) -> (r: SystemState)
    requires
        old(ctx)@.wf(),
    ensures
        (r, final(ctx)@) == step_scale_disconnected(old(ctx)@, *event),
        final(ctx)@.wf(),
{
    match event {
        BrewInput::DisableSystem => disable(ctx, false),
        BrewInput::BleDisabled => {
            ctx.ble_enabled = false;
            emit(ctx, BrewOutput::DisableBle);
            let wifi_connected = ctx.wifi_connected;
            emit(ctx, BrewOutput::NetworkStatusChanged { ble_enabled: false, wifi_connected });
            SystemState::BleDisabled
        },
        BrewInput::BleScanning => {
            ctx.ble_scanning = true;
            emit(ctx, BrewOutput::StartBleScanning);
            SystemState::BleScanning
        },
        BrewInput::WifiConnected => {
            let ble = ctx.ble_enabled;
            wifi(ctx, true, ble);
            SystemState::ScaleDisconnected
        },
        BrewInput::WifiDisconnected => {
            let ble = ctx.ble_enabled;
            wifi(ctx, false, ble);
            SystemState::ScaleDisconnected
        },
        BrewInput::EmergencyStop => {
            emit(ctx, BrewOutput::RelayOff);
            SystemState::ScaleDisconnected
        },
        BrewInput::ScaleConnected => {
            ctx.scale_connected = true;
            emit(ctx, BrewOutput::ScaleConnectionChanged { connected: true });
            SystemState::Idle
        },
        _ => SystemState::ScaleDisconnected,
    }
}

fn idle_on_scale_data(ctx: &mut BrewContext, data: &ScaleData, now_ms: u64) -> (r: SystemState)
    requires
        old(ctx)@.wf(),
    ensures
        (r, final(ctx)@) == idle_scale_data(old(ctx)@, *data, now_ms),
        final(ctx)@.wf(),
{
    let was_running = ctx.timer_running;
    ctx.current_weight_cg = data.weight_cg;
    ctx.timer_running = data.timer_running;
    emit(ctx, BrewOutput::DisplayUpdate);
    if should_auto_tare(ctx, data.weight_cg, now_ms) {
        ctx.auto_tare_last_tare_time_ms = Some(now_ms);
        emit(ctx, BrewOutput::AutoTareExecuted);
        emit(ctx, BrewOutput::TareScale);
    }
    if data.timer_running && !was_running {
        ctx.last_weight_cg = Some(data.weight_cg);
        emit(ctx, BrewOutput::RelayOn);
        emit(ctx, BrewOutput::BrewingStarted);
        return SystemState::Brewing;
    }
    SystemState::Idle
}

fn idle(ctx: &mut BrewContext, event: &BrewInput, now_ms: u64) -> (r: SystemState)
    requires
        old(ctx)@.wf(),
    ensures
        (r, final(ctx)@) == step_idle(old(ctx)@, *event, now_ms),
        final(ctx)@.wf(),
{
    match event {
        BrewInput::DisableSystem => disable(ctx, false),
        BrewInput::WifiConnected => {
            let ble = ctx.ble_enabled;
            wifi(ctx, true, ble);
            SystemState::Idle
        },
        BrewInput::WifiDisconnected => {
            let ble = ctx.ble_enabled;
            wifi(ctx, false, ble);
            SystemState::Idle
        },
        BrewInput::EmergencyStop => {
            emit(ctx, BrewOutput::RelayOff);
            SystemState::Idle
        },
        BrewInput::ScaleDisconnected => {
            ctx.scale_connected = false;
            emit(ctx, BrewOutput::ScaleConnectionChanged { connected: false });
            SystemState::ScaleDisconnected
        },
        BrewInput::ScaleData(data) => idle_on_scale_data(ctx, data, now_ms),
        BrewInput::UserCommand(UserEvent::StartBrewing) => {
            emit(ctx, BrewOutput::StartTimer);
            SystemState::Idle
        },
        BrewInput::UserCommand(UserEvent::TareScale) => {
            emit(ctx, BrewOutput::TareScale);
            SystemState::Idle
        },
        BrewInput::AutoTareEnabled => {
            ctx.auto_tare_enabled = true;
            SystemState::Idle
        },
        BrewInput::AutoTareDisabled => {
            ctx.auto_tare_enabled = false;
            SystemState::Idle
        },
        BrewInput::OvershootReset => {
            reset_overshoot_controller(ctx);
            SystemState::Idle
        },
        _ => SystemState::Idle,
    }
}

fn stop_brew(ctx: &mut BrewContext, now_ms: u64) -> (r: SystemState)
    requires
        old(ctx)@.wf(),
    ensures
        (r, final(ctx)@) == spec_stop_brew(old(ctx)@, now_ms),
        final(ctx)@.wf(),
{
    emit(ctx, BrewOutput::StopTimer);
    emit(ctx, BrewOutput::RelayOff);
    ctx.settle_start_time_ms = Some(now_ms);
    SystemState::Settling
}

proof fn lemma_time_to_target_in_window(needed: int, flow: int, delay: int)
    requires
        flow > 0,
        needed > 0,
        100 <= delay <= 2000,
        needed * 1000 <= 3 * (delay + 200) * flow,
    ensures
        0 <= needed * 1000 / flow <= 6600,
{
    assert(needed * 1000 <= 6600 * flow) by (nonlinear_arith)
        requires needed * 1000 <= 3 * (delay + 200) * flow, 100 <= delay <= 2000, flow > 0;
    assert(needed * 1000 / flow <= 6600) by (nonlinear_arith)
        requires needed * 1000 <= 6600 * flow, flow > 0, needed > 0;
    assert(needed * 1000 / flow >= 0) by (nonlinear_arith)
        requires flow > 0, needed > 0;
}

fn brewing_learn_exec(ctx: &mut BrewContext, data: &ScaleData)
    requires
        old(ctx)@.wf(),
    ensures
        final(ctx)@ == brewing_learn(old(ctx)@, *data),
        final(ctx)@.wf(),
{
    let flow_abs: i64 = if data.flow_rate_cg_per_s < 0 {
        -(data.flow_rate_cg_per_s as i64)
    } else {
        data.flow_rate_cg_per_s as i64
    };
    if flow_abs < FLOW_STOPPED_CG_PER_S && ctx.overshoot_pending_predicted_stop {
        let overshoot = data.weight_cg as i64 - ctx.target_weight_cg as i64;
        record_overshoot_learning(ctx, overshoot);
    }
}

fn brewing_predict_exec(ctx: &mut BrewContext, data: &ScaleData, now_ms: u64)
    requires
        old(ctx)@.wf(),
    ensures
        final(ctx)@ == brewing_predict(old(ctx)@, *data, now_ms),
        final(ctx)@.wf(),
{
    let target = ctx.target_weight_cg;
    if let Some(_predicted_weight) = should_trigger_predictive_stop(ctx, data, target) {
        ctx.overshoot_pending_predicted_stop = true;
        let needed = target as i64 - data.weight_cg as i64;
        let flow = data.flow_rate_cg_per_s as i64;
        proof {
            lemma_time_to_target_in_window(needed as int, flow as int, ctx.overshoot_stop_delay_ms as int);
        }
        let time_to_target = needed * 1000 / flow;
        schedule_delayed_stop(ctx, time_to_target, now_ms);
        emit(ctx, BrewOutput::PredictiveStopTriggered);
    }
}

fn brewing_decide_exec(ctx: &mut BrewContext, data: &ScaleData, now_ms: u64) -> (r: SystemState)
    requires
        old(ctx)@.wf(),
    ensures
        (r, final(ctx)@) == brewing_decide(old(ctx)@, *data, now_ms),
        final(ctx)@.wf(),
{
    if check_delayed_stop_timeout(ctx, now_ms) {
        ctx.overshoot_pending_stop_time_ms = None;
        return stop_brew(ctx, now_ms);
    }
    if !data.timer_running {
        ctx.timer_running = false;
        emit(ctx, BrewOutput::RelayOff);
        ctx.settle_start_time_ms = Some(now_ms);
        return SystemState::Settling;
    }
    if data.weight_cg >= ctx.target_weight_cg {
        if ctx.overshoot_pending_stop_time_ms.is_some() {
            ctx.overshoot_pending_predicted_stop = true;
        }
        ctx.overshoot_pending_stop_time_ms = None;
        return stop_brew(ctx, now_ms);
    }
    SystemState::Brewing
}

fn brewing_on_scale_data(ctx: &mut BrewContext, data: &ScaleData, now_ms: u64) -> (r: SystemState)
    requires
        old(ctx)@.wf(),
    ensures
        (r, final(ctx)@) == brewing_scale_data(old(ctx)@, *data, now_ms),
        final(ctx)@.wf(),
{
    ctx.current_weight_cg = data.weight_cg;
    ctx.last_weight_cg = Some(data.weight_cg);
    ctx.timer_running = data.timer_running;
    emit(ctx, BrewOutput::DisplayUpdate);
    brewing_learn_exec(ctx, data);
    brewing_predict_exec(ctx, data, now_ms);
    brewing_decide_exec(ctx, data, now_ms)
}

fn brewing(ctx: &mut BrewContext, event: &BrewInput, now_ms: u64) -> (r: SystemState)
    requires
        old(ctx)@.wf(),
    ensures
        (r, final(ctx)@) == step_brewing(old(ctx)@, *event, now_ms),
        final(ctx)@.wf(),
{
    match event {
        BrewInput::DisableSystem => disable(ctx, true),
        BrewInput::WifiConnected => {
            let ble = ctx.ble_enabled;
            wifi(ctx, true, ble);
            SystemState::Brewing
        },
        BrewInput::WifiDisconnected => {
            let ble = ctx.ble_enabled;
            wifi(ctx, false, ble);
            SystemState::Brewing
        },
        BrewInput::EmergencyStop => {
            emit(ctx, BrewOutput::RelayOff);
            if ctx.scale_connected {
                SystemState::Idle
            } else {
                SystemState::ScaleDisconnected
            }
        },
        BrewInput::ScaleDisconnected => {
            ctx.scale_connected = false;
            emit(ctx, BrewOutput::ScaleConnectionChanged { connected: false });
            emit(ctx, BrewOutput::RelayOff);
            SystemState::ScaleDisconnected
        },
        BrewInput::ScaleData(data) => brewing_on_scale_data(ctx, data, now_ms),
        BrewInput::TargetWeightReached { .. } => stop_brew(ctx, now_ms),
        BrewInput::UserCommand(UserEvent::StopBrewing) => stop_brew(ctx, now_ms),
        BrewInput::UserCommand(UserEvent::TareScale) => {
            emit(ctx, BrewOutput::TareScale);
            SystemState::Brewing
        },
        _ => SystemState::Brewing,
    }
}

fn settling_on_scale_data(ctx: &mut BrewContext, data: &ScaleData) -> (r: SystemState)
    requires
        old(ctx)@.wf(),
    ensures
        (r, final(ctx)@) == settling_scale_data(old(ctx)@, *data),
        final(ctx)@.wf(),
{
    let was_running = ctx.timer_running;
    ctx.current_weight_cg = data.weight_cg;
    ctx.timer_running = data.timer_running;
    emit(ctx, BrewOutput::DisplayUpdate);
    if data.timer_running && !was_running {
        ctx.last_weight_cg = Some(data.weight_cg);
        emit(ctx, BrewOutput::RelayOn);
        emit(ctx, BrewOutput::BrewingStarted);
        return SystemState::Brewing;
    }
    SystemState::Settling
}

fn finish_brew(ctx: &mut BrewContext, now_ms: u64) -> (r: SystemState)
    requires
        old(ctx)@.wf(),
    ensures
        r == SystemState::Idle,
        final(ctx)@ == spec_auto_tare_brewing_finished(
            old(ctx)@.emit(BrewOutput::BrewingFinished),
            old(ctx)@.current_weight_cg,
            now_ms,
        ),
        final(ctx)@.wf(),
{
    emit(ctx, BrewOutput::BrewingFinished);
    let w = ctx.current_weight_cg;
    auto_tare_brewing_finished(ctx, w, now_ms);
    SystemState::Idle
}

fn settling(ctx: &mut BrewContext, event: &BrewInput, now_ms: u64) -> (r: SystemState)
    requires
        old(ctx)@.wf(),
    ensures
        (r, final(ctx)@) == step_settling(old(ctx)@, *event, now_ms),
        final(ctx)@.wf(),
{
    match event {
        BrewInput::DisableSystem => disable(ctx, true),
        BrewInput::WifiConnected => {
            let ble = ctx.ble_enabled;
            wifi(ctx, true, ble);
            SystemState::Settling
        },
        BrewInput::WifiDisconnected => {
            let ble = ctx.ble_enabled;
            wifi(ctx, false, ble);
            SystemState::Settling
        },
        BrewInput::EmergencyStop => {
            emit(ctx, BrewOutput::RelayOff);
            if ctx.scale_connected {
                SystemState::Idle
            } else {
                SystemState::ScaleDisconnected
            }
        },
        BrewInput::ScaleDisconnected => {
            ctx.scale_connected = false;
            emit(ctx, BrewOutput::ScaleConnectionChanged { connected: false });
            SystemState::ScaleDisconnected
        },
        BrewInput::ScaleData(data) => settling_on_scale_data(ctx, data),
        BrewInput::FlowStopped | BrewInput::SettlingTimeout => finish_brew(ctx, now_ms),
        BrewInput::UserCommand(UserEvent::StartBrewing) => {
            emit(ctx, BrewOutput::StartTimer);
            emit(ctx, BrewOutput::RelayOn);
            emit(ctx, BrewOutput::BrewingStarted);
            SystemState::Brewing
        },
        BrewInput::UserCommand(UserEvent::TareScale) => {
            emit(ctx, BrewOutput::TareScale);
            SystemState::Settling
        },
        _ => SystemState::Settling,
    }
}

// ---------------------------------------------------------------------------
// The controller
// ---------------------------------------------------------------------------

pub(crate) fn dispatch(ctx: &mut BrewContext, state: SystemState, input: &BrewInput, now_ms: u64) -> (r: SystemState)
    requires
        old(ctx)@.wf(),
    ensures
        (r, final(ctx)@) == brew_step(state, old(ctx)@, *input, now_ms),
        final(ctx)@.wf(),
{
    reveal(brew_step);
    match state {
        SystemState::SystemDisabled => system_disabled(ctx, input),
        SystemState::BleDisabled => ble_disabled(ctx, input),
        SystemState::BleEnabled => ble_enabled(ctx, input),
        SystemState::BleScanning => ble_scanning(ctx, input),
        SystemState::BleConnecting => ble_connecting(ctx, input),
        SystemState::ScaleDisconnected => scale_disconnected(ctx, input),
        SystemState::Idle => idle(ctx, input, now_ms),
        SystemState::Brewing => brewing(ctx, input, now_ms),
        SystemState::Settling => settling(ctx, input, now_ms),
        _ => state,
    }
}

impl From<BrewState> for StatusBrewState {
    fn from(state: BrewState) -> (r: StatusBrewState) {
        match state {
            BrewState::Idle => StatusBrewState::Idle,
            BrewState::Brewing => StatusBrewState::Brewing,
            BrewState::Settling => StatusBrewState::BrewSettling,
        }
    }
}

impl vstd::std_specs::convert::FromSpecImpl<BrewState> for StatusBrewState {
    open spec fn obeys_from_spec() -> bool {
        true
    }

    open spec fn from_spec(state: BrewState) -> StatusBrewState {
        match state {
            BrewState::Idle => StatusBrewState::Idle,
            BrewState::Brewing => StatusBrewState::Brewing,
            BrewState::Settling => StatusBrewState::BrewSettling,
        }
    }
}

impl From<StatusBrewState> for BrewState {
    fn from(state: StatusBrewState) -> (r: BrewState) {
        match state {
            StatusBrewState::Idle => BrewState::Idle,
            StatusBrewState::Brewing => BrewState::Brewing,
            StatusBrewState::BrewSettling => BrewState::Settling,
        }
    }
}

impl vstd::std_specs::convert::FromSpecImpl<StatusBrewState> for BrewState {
    open spec fn obeys_from_spec() -> bool {
        true
    }

    open spec fn from_spec(state: StatusBrewState) -> BrewState {
        match state {
            StatusBrewState::Idle => BrewState::Idle,
            StatusBrewState::Brewing => BrewState::Brewing,
            StatusBrewState::BrewSettling => BrewState::Settling,
        }
    }
}

/// A change of the brewing state, for the older interface.
#[derive(Debug, Clone, Copy, PartialEq, Eq, Structural)]
pub struct BrewStateTransition {
    pub from: StatusBrewState,
    pub to: StatusBrewState,
}

impl BrewStateTransition {
    pub fn new(from: StatusBrewState, to: StatusBrewState) -> (r: Self)
        ensures
            r.from == from,
            r.to == to,
    {
        BrewStateTransition { from, to }
    }
}

} // verus!
