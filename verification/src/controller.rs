//! The espresso controller's decisions: how each event, reading, command and
//! state-machine output changes the shared state, and which actions the
//! hardware and the event bus must carry out.
//!
//! The controller here owns no hardware. Each handler returns the actions in
//! the order they must be performed; results of relay operations come back
//! through the `on_*` handlers.

use vstd::prelude::*;
use crate::bounded::{output_items, outputs_get, outputs_len};
use crate::brewing::controller::{controller_step, BrewController};
use crate::brewing::laws::{law_emergency_stop_relay_off, law_relay_on_only_when_brewing_starts, no_relay_on};
use crate::brewing::states::{
    default_context_view, BrewContextView, BrewInput, BrewOutput, BrewStateTransition, SystemState as MachineState,
};
use crate::safety::{SafetyController, WATCHDOG_TIMEOUT_MS};
use crate::scales::event_detection::{
    detection_step, history_after, initial_detector_state, DataPoint, DetectorState, ScaleEventDetector,
};
use crate::scales::traits::ScaleCommand;
use crate::state::{
    apply_op, apply_ops, initial_state_view, lemma_apply_concat, lemma_apply_one, lemma_apply_push, StateManager,
    StateOp, StateView,
};
use crate::server::http::WebSocketCommand;
use crate::system::events::{
    BrewEvent, HardwareEvent, NetworkEvent, SafetyEvent, ScaleButton, ScaleEvent, SystemEvent,
    TimeEvent, UserEvent,
};
use crate::text::{
    bool_text, fixed1_of_hundredths, push_bool, push_fixed1_of_hundredths, push_signed_decimal,
    push_text, signed_decimal,
};
use crate::types::{elapsed_ms, elapsed_since, BrewConfig, BrewState, ScaleData, TimerState};

verus! {

/// Which step asked for a relay operation, so that its result is handled as
/// that step requires.
#[derive(Debug, Clone, Copy, PartialEq, Eq, Structural)]
pub enum RelayRequest {
    /// A relay hardware event taken off the event bus.
    HardwareEvent,
    /// The coarse brew state transition.
    BrewTransition,
}

/// What the controller asks of the hardware and the event bus.
#[derive(Debug, Clone)]
pub enum ControllerAction {
    /// Publish an event on the event bus.
    Publish(SystemEvent),
    /// Switch the relay on; report the result to `on_relay_result`.
    RelayOn(RelayRequest),
    /// Switch the relay off; report the result to `on_relay_result`.
    RelayOff(RelayRequest),
    /// Drive the relay pin low at once, bypassing the relay's own state.
    RelayOffImmediately,
    /// Run the relay self-test; report the result to `on_relay_test_result`.
    TestRelay,
    /// Queue a command for the scale task.
    SendScaleCommand(ScaleCommand),
}

/// The coarse brew state shown for a machine state.
pub open spec fn status_of(s: MachineState) -> BrewState {
    match s {
        MachineState::Brewing => BrewState::Brewing,
        MachineState::Settling => BrewState::BrewSettling,
        _ => BrewState::Idle,
    }
}

/// The message of an output that is only logged.
pub open spec fn output_log_text(o: BrewOutput) -> Option<Seq<char>> {
    match o {
        BrewOutput::BrewingStarted => Some("Brewing started"@),
        BrewOutput::BrewingFinished => Some("Brewing finished"@),
        BrewOutput::PredictiveStopTriggered => Some("Predictive stop triggered"@),
        BrewOutput::EnableBle => Some("BLE enabled"@),
        BrewOutput::DisableBle => Some("BLE disabled"@),
        BrewOutput::StartBleScanning => Some("BLE scanning started"@),
        BrewOutput::StopBleScanning => Some("BLE scanning stopped"@),
        BrewOutput::ConnectToWifi { ssid, password: _ } => Some("WiFi connecting to "@ + ssid@),
        BrewOutput::DisconnectWifi => Some("WiFi disconnected"@),
        BrewOutput::StartWifiProvisioning => Some("WiFi provisioning started"@),
        BrewOutput::AutoTareExecuted => Some("Auto-tare executed"@),
        BrewOutput::PredictiveStopScheduled { delay_ms, predicted_weight_cg: _ } => Some(
            "Predictive stop scheduled: "@ + signed_decimal(delay_ms as int) + "ms delay"@,
        ),
        BrewOutput::OvershootLearningUpdated { delay_ms, ewma_cg, confidence_permille: _ } => Some(
            "Overshoot learning: delay="@ + signed_decimal(delay_ms as int) + "ms, ewma="@
                + fixed1_of_hundredths(ewma_cg as int) + "g"@,
        ),
        BrewOutput::OvershootControllerReset => Some("Overshoot controller reset"@),
        _ => None,
    }
}

/// The decisions of a fresh controller: the initial shared state, a safety
/// controller that has seen no reading and the relay off, the machine with BLE
/// disabled and a 36 g target, no readings, nothing pending.
pub open spec fn initial_core() -> CoreView {
    CoreView {
        sm: initial_state_view(),
        safety: SafetyController {
            last_data_received_ms: None,
            last_relay_state: false,
            watchdog_timeout_ms: WATCHDOG_TIMEOUT_MS,
        },
        machine: (MachineState::BleDisabled, BrewContextView { target_weight_cg: 3600, ..default_context_view() }),
        history: Seq::empty(),
        detector: initial_detector_state(),
        pending_stop_time_ms: None,
        last_timer_ms: None,
        current_timer_running: false,
        timer_start_time_ms: None,
        consecutive_disconnection_count: 0,
        brew_start_time_ms: None,
    }
}

/// The state changes one output of the state machine makes.
pub open spec fn brew_output_ops(o: BrewOutput) -> Seq<StateOp> {
    match o {
        BrewOutput::RelayOn => seq![StateOp::Relay(true)],
        BrewOutput::RelayOff => seq![StateOp::Relay(false)],
        BrewOutput::StateChanged { from: _, to } => seq![StateOp::Brew(status_of(to))],
        BrewOutput::ScaleConnectionChanged { connected } => seq![StateOp::Ble(connected)],
        BrewOutput::NetworkStatusChanged { ble_enabled, wifi_connected } => seq![
            StateOp::Ble(ble_enabled),
            StateOp::Log(
                "Network status: BLE="@ + bool_text(ble_enabled) + ", WiFi="@ + bool_text(
                    wifi_connected,
                ),
            ),
        ],
        BrewOutput::AutoTareStateChanged { from: _, to } => seq![StateOp::AutoTare(to)],
        _ => match output_log_text(o) {
            Some(m) => seq![StateOp::Log(m)],
            None => Seq::empty(),
        },
    }
}

/// The message of an output that is only logged.
fn output_log_message(o: &BrewOutput) -> (r: Option<String>)
    ensures
        match r {
            Some(m) => output_log_text(*o) == Some(m@),
            None => output_log_text(*o) is None,
        },
{
    match o {
        BrewOutput::BrewingStarted => Some(String::from_str("Brewing started")),
        BrewOutput::BrewingFinished => Some(String::from_str("Brewing finished")),
        BrewOutput::PredictiveStopTriggered => Some(String::from_str("Predictive stop triggered")),
        BrewOutput::EnableBle => Some(String::from_str("BLE enabled")),
        BrewOutput::DisableBle => Some(String::from_str("BLE disabled")),
        BrewOutput::StartBleScanning => Some(String::from_str("BLE scanning started")),
        BrewOutput::StopBleScanning => Some(String::from_str("BLE scanning stopped")),
        BrewOutput::ConnectToWifi { ssid, password: _ } => {
            Some(String::from_str("WiFi connecting to ").concat(ssid.as_str()))
        },
        BrewOutput::DisconnectWifi => Some(String::from_str("WiFi disconnected")),
        BrewOutput::StartWifiProvisioning => Some(String::from_str("WiFi provisioning started")),
        BrewOutput::AutoTareExecuted => Some(String::from_str("Auto-tare executed")),
        BrewOutput::PredictiveStopScheduled { delay_ms, predicted_weight_cg: _ } => {
            let mut msg = String::from_str("Predictive stop scheduled: ");
            push_signed_decimal(&mut msg, *delay_ms);
            push_text(&mut msg, "ms delay");
            Some(msg)
        },
        BrewOutput::OvershootLearningUpdated { delay_ms, ewma_cg, confidence_permille: _ } => {
            let mut msg = String::from_str("Overshoot learning: delay=");
            push_signed_decimal(&mut msg, *delay_ms);
            push_text(&mut msg, "ms, ewma=");
            push_fixed1_of_hundredths(&mut msg, *ewma_cg);
            push_text(&mut msg, "g");
            Some(msg)
        },
        BrewOutput::OvershootControllerReset => Some(String::from_str("Overshoot controller reset")),
        _ => None,
    }
}

/// The actions one output of the state machine asks for: relay and scale
/// outputs become hardware events on the bus.
pub open spec fn brew_output_actions(o: BrewOutput) -> Seq<ControllerAction> {
    match o {
        BrewOutput::RelayOn => seq![ControllerAction::Publish(SystemEvent::Hardware(HardwareEvent::RelayOn))],
        BrewOutput::RelayOff => seq![ControllerAction::Publish(SystemEvent::Hardware(HardwareEvent::RelayOff))],
        BrewOutput::TareScale => seq![
            ControllerAction::Publish(SystemEvent::Hardware(HardwareEvent::SendScaleCommand(ScaleCommand::Tare))),
        ],
        BrewOutput::StartTimer => seq![
            ControllerAction::Publish(
                SystemEvent::Hardware(HardwareEvent::SendScaleCommand(ScaleCommand::StartTimer)),
            ),
        ],
        BrewOutput::StopTimer => seq![
            ControllerAction::Publish(
                SystemEvent::Hardware(HardwareEvent::SendScaleCommand(ScaleCommand::StopTimer)),
            ),
        ],
        _ => Seq::empty(),
    }
}

/// The state changes of a batch of outputs, in order.
pub open spec fn outputs_ops(outs: Seq<BrewOutput>) -> Seq<StateOp>
    decreases outs.len(),
{
    if outs.len() == 0 {
        Seq::empty()
    } else {
        outputs_ops(outs.drop_last()) + brew_output_ops(outs.last())
    }
}

/// The actions of a batch of outputs, in order.
pub open spec fn outputs_actions(outs: Seq<BrewOutput>) -> Seq<ControllerAction>
    decreases outs.len(),
{
    if outs.len() == 0 {
        Seq::empty()
    } else {
        outputs_actions(outs.drop_last()) + brew_output_actions(outs.last())
    }
}

/// The controller's state as the specifications see it.
pub struct CoreView {
    pub sm: StateView,
    pub safety: SafetyController,
    pub machine: (MachineState, BrewContextView),
    pub history: Seq<DataPoint>,
    pub detector: DetectorState,
    pub pending_stop_time_ms: Option<u64>,
    pub last_timer_ms: Option<u32>,
    pub current_timer_running: bool,
    pub timer_start_time_ms: Option<u64>,
    pub consecutive_disconnection_count: u32,
    pub brew_start_time_ms: Option<u64>,
}

/// `c` after one change of the shared state.
pub open spec fn op_core(c: CoreView, op: StateOp) -> CoreView {
    CoreView { sm: apply_op(c.sm, op), ..c }
}

/// One input through the state machine, its outputs carried out.
pub open spec fn feed(c: CoreView, input: BrewInput, now: u64) -> (CoreView, Seq<ControllerAction>) {
    let (s, v, outs) = controller_step(c.machine.0, c.machine.1, input, now);
    (CoreView { machine: (s, v), sm: apply_ops(c.sm, outputs_ops(outs)), ..c }, outputs_actions(outs))
}

/// The periodic settling check: a `SettlingTimeout` once settling ran out.
pub open spec fn settle_check(c: CoreView, now: u64) -> (CoreView, Seq<ControllerAction>) {
    if c.machine.1.settle_start_time_ms matches Some(t) && elapsed_ms(now, t) > c.machine.1.settling_timeout_ms {
        feed(c, BrewInput::SettlingTimeout, now)
    } else {
        (c, Seq::empty())
    }
}

/// `c` with a new target weight in the configuration and the machine.
pub open spec fn with_target(c: CoreView, w: i32) -> CoreView {
    let c1 = op_core(c, StateOp::Config(BrewConfig { target_weight_cg: w, ..c.sm.config }));
    CoreView { machine: (c1.machine.0, BrewContextView { target_weight_cg: w, ..c1.machine.1 }), ..c1 }
}

/// The emergency stop: start-up and pending stop forgotten, the relay cut at
/// once when the safety controller saw it on, the state reset to idle with
/// the error recorded.
pub open spec fn emergency(c: CoreView) -> (CoreView, Seq<ControllerAction>) {
    let was_on = c.safety.last_relay_state;
    let c1 = CoreView {
        brew_start_time_ms: None,
        pending_stop_time_ms: None,
        safety: SafetyController { last_relay_state: false, ..c.safety },
        ..c
    };
    let c2 = op_core(c1, StateOp::Relay(false));
    let c3 = op_core(c2, StateOp::Error(Some("Emergency stop activated"@)));
    let c4 = op_core(c3, StateOp::Log("EMERGENCY STOP"@));
    let c5 = op_core(c4, StateOp::Brew(BrewState::Idle));
    let c6 = op_core(c5, StateOp::Timer(TimerState::Idle));
    (c6, if was_on { seq![ControllerAction::RelayOffImmediately] } else { Seq::empty() })
}

/// Flow above which a timer start is taken for the scale shutting down
/// (50 g/s).
pub const SHUTDOWN_FLOW_CG_PER_S: i32 = 5000;
/// Flow above which a timer start is ignored (25 g/s).
pub const HIGH_FLOW_CG_PER_S: i32 = 2500;
/// A disconnection this soon after a timer start suggests a shutdown.
pub const SHUTDOWN_WINDOW_MS: u64 = 3000;
/// Weight readings are ignored for predictive logic this long after start.
pub const STARTUP_DELAY_MS: u64 = 2000;

/// Timer detection from the scale's timestamp: the first reading only sets
/// the reference; a timestamp that moves forward starts the timer unless the
/// scale looks like it is shutting down; a frozen or zeroed timestamp stops
/// it.
pub open spec fn timer_detection(c: CoreView, d: ScaleData, now: u64) -> CoreView {
    let ts = d.timestamp_ms;
    match c.last_timer_ms {
        None => CoreView { last_timer_ms: Some(ts), ..c },
        Some(last) => if !c.current_timer_running && ts > 0 && ts > last {
            if c.consecutive_disconnection_count > 0 {
                CoreView { consecutive_disconnection_count: 0, ..c }
            } else if d.flow_rate_cg_per_s > SHUTDOWN_FLOW_CG_PER_S {
                c
            } else if d.flow_rate_cg_per_s > HIGH_FLOW_CG_PER_S {
                c
            } else {
                let c1 = CoreView { current_timer_running: true, timer_start_time_ms: Some(now), ..c };
                CoreView { last_timer_ms: Some(ts), ..op_core(c1, StateOp::Timer(TimerState::Running)) }
            }
        } else if c.current_timer_running && ts == last && ts > 0 {
            let c1 = CoreView { current_timer_running: false, ..c };
            CoreView { last_timer_ms: Some(ts), ..op_core(c1, StateOp::Timer(TimerState::Idle)) }
        } else if c.current_timer_running && ts == 0 {
            let c1 = CoreView { current_timer_running: false, ..c };
            CoreView { last_timer_ms: Some(ts), ..op_core(c1, StateOp::Timer(TimerState::Idle)) }
        } else {
            CoreView { last_timer_ms: Some(ts), ..c }
        },
    }
}

/// A change of the BLE connection. A disconnection within the shutdown window
/// after a timer start counts towards a shutdown and, with the timer running,
/// stops it (and the shot, when one is under way); a later one resets the
/// count. A disconnection records the error; a connection clears it and the
/// tracking.
pub open spec fn ble_status_change(c: CoreView, connected: bool, now: u64) -> (CoreView, Seq<ControllerAction>) {
    let c0 = op_core(c, StateOp::Ble(connected));
    if !connected {
        let (c1, a1) = match c0.timer_start_time_ms {
            Some(start) => if elapsed_ms(now, start) < SHUTDOWN_WINDOW_MS {
                let cc = CoreView {
                    consecutive_disconnection_count: (c0.consecutive_disconnection_count + 1) as u32,
                    ..c0
                };
                if cc.current_timer_running {
                    let cd = op_core(
                        CoreView { current_timer_running: false, ..cc },
                        StateOp::Timer(TimerState::Idle),
                    );
                    if cd.sm.brew_state != BrewState::Idle {
                        emergency(cd)
                    } else {
                        (cd, Seq::empty())
                    }
                } else {
                    (cc, Seq::empty())
                }
            } else {
                (CoreView { consecutive_disconnection_count: 0, ..c0 }, Seq::empty())
            },
            None => (c0, Seq::empty()),
        };
        (op_core(c1, StateOp::Error(Some("BLE disconnected"@))), a1)
    } else {
        let c1 = CoreView { consecutive_disconnection_count: 0, timer_start_time_ms: None, ..c0 };
        (op_core(c1, StateOp::Error(None)), Seq::empty())
    }
}

/// The user event a web command stands for.
pub open spec fn ws_user_event(cmd: WebSocketCommand) -> UserEvent {
    match cmd {
        WebSocketCommand::SetTargetWeight { weight_cg } => UserEvent::SetTargetWeight(weight_cg),
        WebSocketCommand::SetAutoTare { enabled } => UserEvent::SetAutoTare(enabled),
        WebSocketCommand::SetPredictiveStop { enabled } => UserEvent::SetPredictiveStop(enabled),
        WebSocketCommand::TareScale => UserEvent::TareScale,
        WebSocketCommand::StartTimer => UserEvent::StartBrewing,
        WebSocketCommand::StopTimer => UserEvent::StopBrewing,
        WebSocketCommand::ResetTimer => UserEvent::ResetTimer,
        WebSocketCommand::TestRelay => UserEvent::TestRelay,
        WebSocketCommand::ResetOvershoot => UserEvent::ResetOvershoot,
    }
}

/// A web command: configuration changes update the configuration (and the
/// machine's target); the relay test is handed to the hardware; the timer and
/// tare commands go through the state machine and are logged.
pub open spec fn websocket_command(c: CoreView, cmd: WebSocketCommand, now: u64) -> (CoreView, Seq<ControllerAction>) {
    match cmd {
        WebSocketCommand::SetTargetWeight { weight_cg } => (with_target(c, weight_cg), Seq::empty()),
        WebSocketCommand::SetAutoTare { enabled } => (
            op_core(c, StateOp::Config(BrewConfig { auto_tare: enabled, ..c.sm.config })),
            Seq::empty(),
        ),
        WebSocketCommand::SetPredictiveStop { enabled } => (
            op_core(c, StateOp::Config(BrewConfig { predictive_stop: enabled, ..c.sm.config })),
            Seq::empty(),
        ),
        WebSocketCommand::TestRelay => (c, seq![ControllerAction::TestRelay]),
        WebSocketCommand::TareScale => {
            let (c1, a1) = feed(c, BrewInput::UserCommand(UserEvent::TareScale), now);
            (op_core(c1, StateOp::Log("Tare command routed through state machine"@)), a1)
        },
        WebSocketCommand::StartTimer => {
            let (c1, a1) = feed(c, BrewInput::UserCommand(UserEvent::StartBrewing), now);
            (op_core(c1, StateOp::Log("Start brewing command routed through state machine"@)), a1)
        },
        WebSocketCommand::StopTimer => {
            let (c1, a1) = feed(c, BrewInput::UserCommand(UserEvent::StopBrewing), now);
            (op_core(c1, StateOp::Log("Stop brewing command routed through state machine"@)), a1)
        },
        WebSocketCommand::ResetTimer => {
            let (c1, a1) = feed(c, BrewInput::UserCommand(UserEvent::ResetTimer), now);
            (op_core(c1, StateOp::Log("Reset timer command routed through state machine"@)), a1)
        },
        WebSocketCommand::ResetOvershoot => feed(c, BrewInput::UserCommand(UserEvent::ResetOvershoot), now),
    }
}

/// A user event other than an emergency stop: configuration changes first,
/// then the event goes to the state machine.
pub open spec fn user_event(c: CoreView, ev: UserEvent, now: u64) -> (CoreView, Seq<ControllerAction>) {
    let c1 = match ev {
        UserEvent::SetTargetWeight(w) => with_target(c, w),
        UserEvent::SetAutoTare(e) => op_core(c, StateOp::Config(BrewConfig { auto_tare: e, ..c.sm.config })),
        UserEvent::SetPredictiveStop(e) => op_core(
            c,
            StateOp::Config(BrewConfig { predictive_stop: e, ..c.sm.config }),
        ),
        _ => c,
    };
    feed(c1, BrewInput::UserCommand(ev), now)
}

/// `a` publishes an emergency stop with the given reason.
pub open spec fn stop_request(a: ControllerAction, reason: Seq<char>) -> bool {
    a matches ControllerAction::Publish(SystemEvent::Safety(SafetyEvent::EmergencyStop { reason: r })) && r@ == reason
}

/// A scale event: a reading is analysed for inferred events (each
/// published), recorded and fed to the machine; connections are recorded and
/// fed to the machine; buttons and timer events become user commands.
pub open spec fn scale_event(c: CoreView, ev: ScaleEvent, now: u64) -> (CoreView, Seq<ControllerAction>) {
    match ev {
        ScaleEvent::WeightChanged { data } => {
            let (st, evs) = detection_step(c.detector, data, now);
            let c1 = CoreView {
                history: history_after(c.history, DataPoint { data, timestamp_ms: now }),
                detector: st,
                ..c
            };
            let a1 = evs.map_values(|e: ScaleEvent| ControllerAction::Publish(SystemEvent::Scale(e)));
            let c2 = op_core(c1, StateOp::ScaleData(data));
            let (c3, a3) = feed(c2, BrewInput::ScaleData(data), now);
            (c3, a1 + a3)
        },
        ScaleEvent::Connected { info: _ } => feed(op_core(c, StateOp::Ble(true)), BrewInput::ScaleConnected, now),
        ScaleEvent::Disconnected { reason: _ } => feed(
            op_core(c, StateOp::Ble(false)),
            BrewInput::ScaleDisconnected,
            now,
        ),
        ScaleEvent::ButtonPressed(ScaleButton::Tare) => (
            c,
            seq![ControllerAction::Publish(SystemEvent::User(UserEvent::TareScale))],
        ),
        ScaleEvent::ButtonPressed(ScaleButton::Timer) => (
            c,
            seq![ControllerAction::Publish(SystemEvent::User(UserEvent::StartBrewing))],
        ),
        ScaleEvent::TimerStarted { timestamp_ms: _ } => (
            c,
            seq![ControllerAction::Publish(SystemEvent::User(UserEvent::StartBrewing))],
        ),
        ScaleEvent::TimerStopped { timestamp_ms: _ } => (
            c,
            seq![ControllerAction::Publish(SystemEvent::User(UserEvent::StopBrewing))],
        ),
        _ => (c, Seq::empty()),
    }
}

/// A brew milestone: state changes and the start and end of a shot are
/// recorded.
pub open spec fn brew_event(c: CoreView, ev: BrewEvent) -> CoreView {
    match ev {
        BrewEvent::StateChanged { from: _, to } => op_core(c, StateOp::Brew(to)),
        BrewEvent::Started { target_weight_cg: _ } => op_core(c, StateOp::Log("Brewing started"@)),
        BrewEvent::Finished { final_weight_cg: _, duration_ms: _ } => op_core(c, StateOp::Log("Brewing finished"@)),
        _ => c,
    }
}

/// Whether the safety check stops the shot: `must_stop` on the shared state.
pub open spec fn safety_stop(c: CoreView, now: u64) -> bool {
    &&& c.sm.timer_state == TimerState::Running
    &&& {
        ||| !c.sm.ble_connected
        ||| match c.safety.last_data_received_ms {
            Some(t) => elapsed_ms(now, t) > c.safety.watchdog_timeout_ms,
            None => true,
        }
        ||| !c.sm.wifi_connected
        ||| c.sm.last_error is Some
    }
}

/// A tick after the safety check: the machine gets a tick, then the settling
/// check runs.
pub open spec fn tick(c: CoreView, now: u64) -> (CoreView, Seq<ControllerAction>) {
    let (c1, a1) = feed(c, BrewInput::Tick, now);
    let (c2, a2) = settle_check(c1, now);
    (c2, a1 + a2)
}

/// An emergency stop event: the relay is switched off, the machine stopped,
/// the reason recorded.
pub open spec fn safety_emergency(c: CoreView, reason: Seq<char>, now: u64) -> (CoreView, Seq<ControllerAction>) {
    let (c1, a1) = feed(c, BrewInput::EmergencyStop, now);
    (
        op_core(c1, StateOp::Error(Some(reason))),
        seq![ControllerAction::Publish(SystemEvent::Hardware(HardwareEvent::RelayOff))] + a1,
    )
}

/// A network event: connection flags are recorded.
pub open spec fn network_event(c: CoreView, ev: NetworkEvent) -> CoreView {
    match ev {
        NetworkEvent::WifiConnected { ssid: _ } => op_core(c, StateOp::Wifi(true)),
        NetworkEvent::WifiDisconnected => op_core(c, StateOp::Wifi(false)),
        NetworkEvent::BleConnected { device_name: _ } => op_core(c, StateOp::Ble(true)),
        NetworkEvent::BleDisconnected => op_core(c, StateOp::Ble(false)),
        _ => c,
    }
}

/// The hardware work a hardware event asks for.
pub open spec fn hardware_actions(ev: SystemEvent) -> Seq<ControllerAction> {
    match ev {
        SystemEvent::Hardware(HardwareEvent::RelayOn) => seq![ControllerAction::RelayOn(RelayRequest::HardwareEvent)],
        SystemEvent::Hardware(HardwareEvent::RelayOff) => seq![ControllerAction::RelayOff(RelayRequest::HardwareEvent)],
        SystemEvent::Hardware(HardwareEvent::SendScaleCommand(cmd)) => seq![ControllerAction::SendScaleCommand(cmd)],
        _ => Seq::empty(),
    }
}

/// Stopping with a reason: any pending stop is cancelled and the stop logged.
pub open spec fn stop_with_reason(c: CoreView, reason: Seq<char>) -> CoreView {
    op_core(CoreView { pending_stop_time_ms: None, ..c }, StateOp::Log("Brewing stopped ("@ + reason + ")"@))
}

/// Brewing logic of the polling loop: with predictive stopping on and past the
/// start-up delay, the shot stops once the target is reached after the first
/// second of the timer.
pub open spec fn brewing_logic(c: CoreView, d: ScaleData, now: u64) -> CoreView {
    if !c.sm.config.predictive_stop {
        c
    } else if c.brew_start_time_ms matches Some(b) && elapsed_ms(now, b) < STARTUP_DELAY_MS {
        c
    } else if d.weight_cg >= c.sm.config.target_weight_cg && d.timestamp_ms > 1000 {
        stop_with_reason(c, "target_reached"@)
    } else {
        c
    }
}

/// A reading in the polling loop: noted for the watchdog, recorded, used for
/// timer detection, fed to the machine, then brewing logic while the timer
/// runs.
pub open spec fn scale_data_step(c: CoreView, d: ScaleData, now: u64) -> (CoreView, Seq<ControllerAction>) {
    let c1 = CoreView { safety: SafetyController { last_data_received_ms: Some(now), ..c.safety }, ..c };
    let c2 = op_core(c1, StateOp::ScaleData(d));
    let c3 = timer_detection(c2, d, now);
    let (c4, a4) = feed(c3, BrewInput::ScaleData(d), now);
    if c4.sm.timer_state == TimerState::Running {
        (brewing_logic(c4, d, now), a4)
    } else {
        (c4, a4)
    }
}

/// The periodic update of the polling loop: the safety check may stop the
/// shot; the relay state seen at the start is noted; a due predictive stop
/// is executed while the timer runs.
pub open spec fn periodic(c: CoreView, now: u64) -> (CoreView, Seq<ControllerAction>) {
    let (c1, a1) = if safety_stop(c, now) { emergency(c) } else { (c, Seq::empty()) };
    let c2 = CoreView {
        safety: SafetyController { last_relay_state: c.sm.relay_enabled, ..c1.safety },
        ..c1
    };
    match c2.pending_stop_time_ms {
        Some(t) => if now >= t {
            let c3 = CoreView { pending_stop_time_ms: None, ..c2 };
            if c3.sm.timer_state == TimerState::Running {
                (stop_with_reason(c3, "predicted"@), a1)
            } else {
                (c3, a1)
            }
        } else {
            (c2, a1)
        },
        None => (c2, a1),
    }
}

/// Everything the controller can report for monitoring.
#[derive(Debug)]
pub struct ComprehensiveStatus {
    pub system_state: MachineState,
    pub scale_detector_timer_running: bool,
    pub scale_detector_stable_weight_cg: Option<i32>,
    pub system_enabled: bool,
    pub state_manager_state: crate::types::SystemState,
}

/// The controller's decision state.
pub struct EspressoController {
    pub state_manager: StateManager,
    pub safety_controller: SafetyController,
    pub brew_controller: BrewController,
    pub scale_event_detector: ScaleEventDetector,
    /// When a delayed predictive stop is due.
    pub pending_stop_time_ms: Option<u64>,
    /// The scale timestamp of the previous reading.
    pub last_timer_ms: Option<u32>,
    /// Whether the scale's timer is believed running.
    pub current_timer_running: bool,
    /// When the timer was last seen starting.
    pub timer_start_time_ms: Option<u64>,
    /// Disconnections shortly after a timer start (a scale shutting down).
    pub consecutive_disconnection_count: u32,
    /// When the relay was switched on for the current shot.
    pub brew_start_time_ms: Option<u64>,
}

impl EspressoController {
    /// The controller's state as the specifications see it.
    pub open spec fn decisions(&self) -> CoreView {
        CoreView {
            sm: self.state_manager.view_state(),
            safety: self.safety_controller,
            machine: self.brew_controller@,
            history: self.scale_event_detector.history_view(),
            detector: self.scale_event_detector.detector_state(),
            pending_stop_time_ms: self.pending_stop_time_ms,
            last_timer_ms: self.last_timer_ms,
            current_timer_running: self.current_timer_running,
            timer_start_time_ms: self.timer_start_time_ms,
            consecutive_disconnection_count: self.consecutive_disconnection_count,
            brew_start_time_ms: self.brew_start_time_ms,
        }
    }

    /// The state machine's context is within range.
    pub open spec fn wf(&self) -> bool {
        self.brew_controller.wf()
    }

    /// A fresh controller: default state, empty histories, the machine in
    /// its start state with the default 36 g target.
    pub fn new() -> (r: Self)
        ensures
            r.wf(),
            r.state_manager.view_state() == initial_state_view(),
            r.brew_controller@.0 == MachineState::BleDisabled,
            r.brew_controller@.1.target_weight_cg == 3600,
            r.pending_stop_time_ms is None,
            r.last_timer_ms is None,
            !r.current_timer_running,
            r.timer_start_time_ms is None,
            r.consecutive_disconnection_count == 0,
            r.brew_start_time_ms is None,
            r.decisions() == initial_core(),
    {
        let mut brew_controller = BrewController::new();
        brew_controller.set_target_weight(3600);
        EspressoController {
            state_manager: StateManager::new(),
            safety_controller: SafetyController::new(),
            brew_controller,
            scale_event_detector: ScaleEventDetector::new(),
            pending_stop_time_ms: None,
            last_timer_ms: None,
            current_timer_running: false,
            timer_start_time_ms: None,
            consecutive_disconnection_count: 0,
            brew_start_time_ms: None,
        }
    }

    /// Carries out one output of the state machine: updates the shared state
    /// and returns the events to publish.
    #[verifier::spinoff_prover]
    #[verifier::rlimit(60)]
    pub fn handle_brew_output(&mut self, output: BrewOutput) -> (r: Vec<ControllerAction>)
        ensures
            final(self).state_manager.view_state() == apply_ops(
                old(self).state_manager.view_state(),
                brew_output_ops(output),
            ),
            r@ == brew_output_actions(output),
            final(self).brew_controller == old(self).brew_controller,
            final(self).safety_controller == old(self).safety_controller,
            final(self).scale_event_detector == old(self).scale_event_detector,
            final(self).pending_stop_time_ms == old(self).pending_stop_time_ms,
            final(self).last_timer_ms == old(self).last_timer_ms,
            final(self).current_timer_running == old(self).current_timer_running,
            final(self).timer_start_time_ms == old(self).timer_start_time_ms,
            final(self).consecutive_disconnection_count == old(self).consecutive_disconnection_count,
            final(self).brew_start_time_ms == old(self).brew_start_time_ms,
    {
        let ghost v0 = self.state_manager.view_state();
        let mut actions: Vec<ControllerAction> = Vec::new();
        proof {
            assert(apply_ops(v0, Seq::<StateOp>::empty()) == v0);
        }
        match output {
            BrewOutput::RelayOn => {
                actions.push(ControllerAction::Publish(SystemEvent::Hardware(HardwareEvent::RelayOn)));
                self.state_manager.set_relay_enabled(true);
                proof {
                    lemma_apply_one(v0, StateOp::Relay(true));
                }
            },
            BrewOutput::RelayOff => {
                actions.push(ControllerAction::Publish(SystemEvent::Hardware(HardwareEvent::RelayOff)));
                self.state_manager.set_relay_enabled(false);
                proof {
                    lemma_apply_one(v0, StateOp::Relay(false));
                }
            },
            BrewOutput::StateChanged { from: _, to } => {
                let brew_state = match to {
                    MachineState::Idle => BrewState::Idle,
                    MachineState::Brewing => BrewState::Brewing,
                    MachineState::Settling => BrewState::BrewSettling,
                    _ => BrewState::Idle,
                };
                self.state_manager.update_brew_state(brew_state);
                proof {
                    lemma_apply_one(v0, StateOp::Brew(brew_state));
                }
            },
            BrewOutput::TareScale => {
                actions.push(
                    ControllerAction::Publish(
                        SystemEvent::Hardware(HardwareEvent::SendScaleCommand(ScaleCommand::Tare)),
                    ),
                );
            },
            BrewOutput::StartTimer => {
                actions.push(
                    ControllerAction::Publish(
                        SystemEvent::Hardware(HardwareEvent::SendScaleCommand(ScaleCommand::StartTimer)),
                    ),
                );
            },
            BrewOutput::StopTimer => {
                actions.push(
                    ControllerAction::Publish(
                        SystemEvent::Hardware(HardwareEvent::SendScaleCommand(ScaleCommand::StopTimer)),
                    ),
                );
            },
            BrewOutput::ScaleConnectionChanged { connected } => {
                self.state_manager.set_ble_connected(connected);
                proof {
                    lemma_apply_one(v0, StateOp::Ble(connected));
                }
            },
            BrewOutput::NetworkStatusChanged { ble_enabled, wifi_connected } => {
                self.state_manager.set_ble_connected(ble_enabled);
                let mut msg = String::from_str("Network status: BLE=");
                push_bool(&mut msg, ble_enabled);
                push_text(&mut msg, ", WiFi=");
                push_bool(&mut msg, wifi_connected);
                let ghost m = msg@;
                self.state_manager.add_log(msg);
                proof {
                    lemma_apply_one(v0, StateOp::Ble(ble_enabled));
                    lemma_apply_push(v0, seq![StateOp::Ble(ble_enabled)], StateOp::Log(m));
                    assert(seq![StateOp::Ble(ble_enabled)].push(StateOp::Log(m)) =~= brew_output_ops(output));
                }
            },
            BrewOutput::AutoTareStateChanged { from: _, to } => {
                self.state_manager.update_auto_tare_state(to);
                proof {
                    lemma_apply_one(v0, StateOp::AutoTare(to));
                }
            },
            _ => {
                let msg = output_log_message(&output);
                match msg {
                    Some(m) => {
                        let ghost t = m@;
                        self.state_manager.add_log(m);
                        proof {
                            lemma_apply_one(v0, StateOp::Log(t));
                        }
                    },
                    None => {},
                }
            },
        }
        proof {
            assert(actions@ =~= brew_output_actions(output));
        }
        actions
    }

    /// Carries out a batch of outputs, in order.
    pub fn handle_brew_outputs(&mut self, outputs: &heapless::Vec<BrewOutput, 10>) -> (r: Vec<ControllerAction>)
        ensures
            final(self).state_manager.view_state() == apply_ops(
                old(self).state_manager.view_state(),
                outputs_ops(output_items(*outputs)),
            ),
            r@ == outputs_actions(output_items(*outputs)),
            final(self).brew_controller == old(self).brew_controller,
            final(self).safety_controller == old(self).safety_controller,
            final(self).scale_event_detector == old(self).scale_event_detector,
            final(self).pending_stop_time_ms == old(self).pending_stop_time_ms,
            final(self).last_timer_ms == old(self).last_timer_ms,
            final(self).current_timer_running == old(self).current_timer_running,
            final(self).timer_start_time_ms == old(self).timer_start_time_ms,
            final(self).consecutive_disconnection_count == old(self).consecutive_disconnection_count,
            final(self).brew_start_time_ms == old(self).brew_start_time_ms,
    {
        let ghost v0 = self.state_manager.view_state();
        let ghost outs = output_items(*outputs);
        let n = outputs_len(outputs);
        let mut actions: Vec<ControllerAction> = Vec::new();
        let mut i: usize = 0;
        proof {
            assert(outs.take(0) =~= Seq::<BrewOutput>::empty());
            assert(apply_ops(v0, Seq::<StateOp>::empty()) == v0);
        }
        while i < n
            invariant
                i <= n,
                n == outs.len(),
                outs == output_items(*outputs),
                self.state_manager.view_state() == apply_ops(v0, outputs_ops(outs.take(i as int))),
                actions@ == outputs_actions(outs.take(i as int)),
                self.brew_controller == old(self).brew_controller,
                self.safety_controller == old(self).safety_controller,
                self.scale_event_detector == old(self).scale_event_detector,
                self.pending_stop_time_ms == old(self).pending_stop_time_ms,
                self.last_timer_ms == old(self).last_timer_ms,
                self.current_timer_running == old(self).current_timer_running,
                self.timer_start_time_ms == old(self).timer_start_time_ms,
                self.consecutive_disconnection_count == old(self).consecutive_disconnection_count,
                self.brew_start_time_ms == old(self).brew_start_time_ms,
            decreases n - i,
        {
            let o = outputs_get(outputs, i);
            let ghost before = self.state_manager.view_state();
            let mut more = self.handle_brew_output(o);
            actions.append(&mut more);
            proof {
                assert(outs.take(i as int + 1).drop_last() =~= outs.take(i as int));
                assert(outs.take(i as int + 1).last() == o);
                lemma_apply_concat(v0, outputs_ops(outs.take(i as int)), brew_output_ops(o));
            }
            i = i + 1;
        }
        proof {
            assert(outs.take(n as int) =~= outs);
        }
        actions
    }

    /// Feeds one input to the state machine and carries out its outputs.
    fn feed_machine(&mut self, input: BrewInput, now_ms: u64) -> (r: Vec<ControllerAction>)
        requires
            old(self).wf(),
        ensures
            final(self).wf(),
            (final(self).decisions(), r@) == feed(old(self).decisions(), input, now_ms),
    {
        let outs = self.brew_controller.handle_input(input, now_ms);
        self.handle_brew_outputs(&outs)
    }

    /// The periodic settling check of the state machine.
    fn settle_machine(&mut self, now_ms: u64) -> (r: Vec<ControllerAction>)
        requires
            old(self).wf(),
        ensures
            final(self).wf(),
            (final(self).decisions(), r@) == settle_check(old(self).decisions(), now_ms),
    {
        let ghost c = self.decisions();
        let outs = self.brew_controller.check_settling_timeout(now_ms);
        let r = self.handle_brew_outputs(&outs);
        proof {
            if !(c.machine.1.settle_start_time_ms matches Some(t) && elapsed_ms(now_ms, t) > c.machine.1.settling_timeout_ms) {
                assert(outputs_ops(Seq::<BrewOutput>::empty()) == Seq::<StateOp>::empty());
                assert(outputs_actions(Seq::<BrewOutput>::empty()) == Seq::<ControllerAction>::empty());
                assert(apply_ops(c.sm, Seq::<StateOp>::empty()) == c.sm);
            }
        }
        r
    }

    /// Sets the target weight in the configuration and in the machine.
    fn set_target(&mut self, weight_cg: i32)
        requires
            old(self).wf(),
        ensures
            final(self).wf(),
            final(self).decisions() == with_target(old(self).decisions(), weight_cg),
    {
        let mut config = self.state_manager.get_config();
        config.target_weight_cg = weight_cg;
        self.state_manager.update_config(config);
        self.brew_controller.set_target_weight(weight_cg);
    }

    /// Emergency stop of the polling loop.
    fn emergency_stop(&mut self) -> (r: Vec<ControllerAction>)
        requires
            old(self).wf(),
        ensures
            final(self).wf(),
            (final(self).decisions(), r@) == emergency(old(self).decisions()),
    {
        self.brew_start_time_ms = None;
        self.pending_stop_time_ms = None;
        let mut actions: Vec<ControllerAction> = Vec::new();
        if self.safety_controller.handle_emergency_stop() {
            actions.push(ControllerAction::RelayOffImmediately);
        }
        self.state_manager.set_relay_enabled(false);
        self.state_manager.set_error(Some(String::from_str("Emergency stop activated")));
        self.state_manager.add_log(String::from_str("EMERGENCY STOP"));
        self.state_manager.update_brew_state(BrewState::Idle);
        self.state_manager.update_timer_state(TimerState::Idle);
        proof {
            assert(actions@ =~= emergency(old(self).decisions()).1);
        }
        actions
    }

    /// Timer detection from a reading's timestamp.
    pub fn handle_timer_detection(&mut self, scale_data: &ScaleData, now_ms: u64)
        requires
            old(self).wf(),
        ensures
            final(self).wf(),
            final(self).decisions() == timer_detection(old(self).decisions(), *scale_data, now_ms),
    {
        let ts = scale_data.timestamp_ms;
        match self.last_timer_ms {
            None => {
                self.last_timer_ms = Some(ts);
                return;
            },
            Some(last) => {
                if !self.current_timer_running && ts > 0 && ts > last {
                    if self.consecutive_disconnection_count > 0 {
                        self.consecutive_disconnection_count = 0;
                        return;
                    }
                    if scale_data.flow_rate_cg_per_s > SHUTDOWN_FLOW_CG_PER_S {
                        return;
                    }
                    if scale_data.flow_rate_cg_per_s > HIGH_FLOW_CG_PER_S {
                        return;
                    }
                    self.current_timer_running = true;
                    self.timer_start_time_ms = Some(now_ms);
                    self.state_manager.update_timer_state(TimerState::Running);
                } else if self.current_timer_running && ts == last && ts > 0 {
                    self.current_timer_running = false;
                    self.state_manager.update_timer_state(TimerState::Idle);
                } else if self.current_timer_running && ts == 0 {
                    self.current_timer_running = false;
                    self.state_manager.update_timer_state(TimerState::Idle);
                }
                self.last_timer_ms = Some(ts);
            },
        }
    }

    /// A change of the BLE connection status.
    pub fn handle_ble_status_change(&mut self, connected: bool, now_ms: u64) -> (r: Vec<ControllerAction>)
        requires
            old(self).wf(),
            old(self).consecutive_disconnection_count < u32::MAX,
        ensures
            final(self).wf(),
            (final(self).decisions(), r@) == ble_status_change(old(self).decisions(), connected, now_ms),
    {
        self.state_manager.set_ble_connected(connected);
        let mut actions: Vec<ControllerAction> = Vec::new();
        if !connected {
            match self.timer_start_time_ms {
                Some(start) => {
                    if elapsed_since(now_ms, start) < SHUTDOWN_WINDOW_MS {
                        self.consecutive_disconnection_count = self.consecutive_disconnection_count + 1;
                        if self.current_timer_running {
                            self.current_timer_running = false;
                            self.state_manager.update_timer_state(TimerState::Idle);
                            if self.state_manager.get_brew_state() != BrewState::Idle {
                                actions = self.emergency_stop();
                            }
                        }
                    } else {
                        self.consecutive_disconnection_count = 0;
                    }
                },
                None => {},
            }
            self.state_manager.set_error(Some(String::from_str("BLE disconnected")));
        } else {
            self.consecutive_disconnection_count = 0;
            self.timer_start_time_ms = None;
            self.state_manager.set_error(None);
        }
        actions
    }

    /// The user event a web command stands for.
    pub fn websocket_to_user_event(&self, command: WebSocketCommand) -> (r: Option<UserEvent>)
        ensures
            r == Some(ws_user_event(command)),
    {
        match command {
            WebSocketCommand::SetTargetWeight { weight_cg } => Some(UserEvent::SetTargetWeight(weight_cg)),
            WebSocketCommand::SetAutoTare { enabled } => Some(UserEvent::SetAutoTare(enabled)),
            WebSocketCommand::SetPredictiveStop { enabled } => Some(UserEvent::SetPredictiveStop(enabled)),
            WebSocketCommand::TareScale => Some(UserEvent::TareScale),
            WebSocketCommand::StartTimer => Some(UserEvent::StartBrewing),
            WebSocketCommand::StopTimer => Some(UserEvent::StopBrewing),
            WebSocketCommand::ResetTimer => Some(UserEvent::ResetTimer),
            WebSocketCommand::TestRelay => Some(UserEvent::TestRelay),
            WebSocketCommand::ResetOvershoot => Some(UserEvent::ResetOvershoot),
        }
    }

    /// A command from the web interface.
    pub fn handle_websocket_command(&mut self, command: WebSocketCommand, now_ms: u64) -> (r: Vec<ControllerAction>)
        requires
            old(self).wf(),
        ensures
            final(self).wf(),
            (final(self).decisions(), r@) == websocket_command(old(self).decisions(), command, now_ms),
    {
        match command {
            WebSocketCommand::SetTargetWeight { weight_cg } => {
                self.set_target(weight_cg);
                Vec::new()
            },
            WebSocketCommand::SetAutoTare { enabled } => {
                let mut config = self.state_manager.get_config();
                config.auto_tare = enabled;
                self.state_manager.update_config(config);
                Vec::new()
            },
            WebSocketCommand::SetPredictiveStop { enabled } => {
                let mut config = self.state_manager.get_config();
                config.predictive_stop = enabled;
                self.state_manager.update_config(config);
                Vec::new()
            },
            WebSocketCommand::TestRelay => {
                let mut actions: Vec<ControllerAction> = Vec::new();
                actions.push(ControllerAction::TestRelay);
                proof {
                    assert(actions@ =~= seq![ControllerAction::TestRelay]);
                }
                actions
            },
            WebSocketCommand::TareScale => {
                let actions = self.feed_machine(BrewInput::UserCommand(UserEvent::TareScale), now_ms);
                self.state_manager.add_log(String::from_str("Tare command routed through state machine"));
                actions
            },
            WebSocketCommand::StartTimer => {
                let actions = self.feed_machine(BrewInput::UserCommand(UserEvent::StartBrewing), now_ms);
                self.state_manager.add_log(
                    String::from_str("Start brewing command routed through state machine"),
                );
                actions
            },
            WebSocketCommand::StopTimer => {
                let actions = self.feed_machine(BrewInput::UserCommand(UserEvent::StopBrewing), now_ms);
                self.state_manager.add_log(
                    String::from_str("Stop brewing command routed through state machine"),
                );
                actions
            },
            WebSocketCommand::ResetTimer => {
                let actions = self.feed_machine(BrewInput::UserCommand(UserEvent::ResetTimer), now_ms);
                self.state_manager.add_log(
                    String::from_str("Reset timer command routed through state machine"),
                );
                actions
            },
            WebSocketCommand::ResetOvershoot => {
                self.feed_machine(BrewInput::UserCommand(UserEvent::ResetOvershoot), now_ms)
            },
        }
    }

    /// The result of a relay self-test, logged.
    pub fn on_relay_test_result(&mut self, ok: bool)
        ensures
            final(self).decisions() == op_core(
                old(self).decisions(),
                StateOp::Log(
                    if ok { "Relay test completed successfully"@ } else { "Relay test failed"@ },
                ),
            ),
            final(self).brew_controller == old(self).brew_controller,
    {
        if ok {
            self.state_manager.add_log(String::from_str("Relay test completed successfully"));
        } else {
            self.state_manager.add_log(String::from_str("Relay test failed"));
        }
    }

    /// A user event: configuration changes, then the state machine; an
    /// emergency stop bypasses the machine and is published.
    pub fn handle_user_event(&mut self, user_event_in: UserEvent, now_ms: u64) -> (r: Vec<ControllerAction>)
        requires
            old(self).wf(),
        ensures
            final(self).wf(),
            user_event_in == UserEvent::EmergencyStop ==> final(self).decisions() == old(self).decisions()
                && r@.len() == 1 && stop_request(r@[0], "User emergency stop"@),
            user_event_in != UserEvent::EmergencyStop ==> (final(self).decisions(), r@) == user_event(
                old(self).decisions(),
                user_event_in,
                now_ms,
            ),
    {
        match user_event_in {
            UserEvent::SetTargetWeight(weight_cg) => {
                self.set_target(weight_cg);
            },
            UserEvent::SetAutoTare(enabled) => {
                let mut config = self.state_manager.get_config();
                config.auto_tare = enabled;
                self.state_manager.update_config(config);
            },
            UserEvent::SetPredictiveStop(enabled) => {
                let mut config = self.state_manager.get_config();
                config.predictive_stop = enabled;
                self.state_manager.update_config(config);
            },
            UserEvent::EmergencyStop => {
                let mut actions: Vec<ControllerAction> = Vec::new();
                let reason = String::from_str("User emergency stop");
                actions.push(
                    ControllerAction::Publish(SystemEvent::Safety(SafetyEvent::EmergencyStop { reason })),
                );
                return actions;
            },
            _ => {},
        }
        self.feed_machine(BrewInput::UserCommand(user_event_in), now_ms)
    }

    /// The result of a relay operation the controller asked for.
    pub fn on_relay_result(&mut self, request: RelayRequest, on: bool, ok: bool) -> (r: Vec<ControllerAction>)
        requires
            old(self).wf(),
        ensures
            final(self).wf(),
            ok ==> final(self).decisions() == op_core(old(self).decisions(), StateOp::Relay(on)) && r@.len() == 0,
            !ok && !on ==> final(self).decisions() == old(self).decisions() && r@.len() == 0,
            !ok && on && request == RelayRequest::HardwareEvent ==> final(self).decisions() == old(self).decisions()
                && r@.len() == 1 && stop_request(r@[0], "Relay failure"@),
            !ok && on && request == RelayRequest::BrewTransition ==> (final(self).decisions(), r@) == emergency(
                old(self).decisions(),
            ),
    {
        if ok {
            self.state_manager.set_relay_enabled(on);
            return Vec::new();
        }
        if !on {
            return Vec::new();
        }
        match request {
            RelayRequest::HardwareEvent => {
                let mut actions: Vec<ControllerAction> = Vec::new();
                let reason = String::from_str("Relay failure");
                actions.push(
                    ControllerAction::Publish(SystemEvent::Safety(SafetyEvent::EmergencyStop { reason })),
                );
                actions
            },
            RelayRequest::BrewTransition => self.emergency_stop(),
        }
    }

    /// The coarse brew state transition: the relay follows the shot.
    pub fn handle_brew_state_transition(&mut self, transition: BrewStateTransition, now_ms: u64) -> (r: Vec<ControllerAction>)
        ensures
            transition.from == BrewState::Idle && transition.to == BrewState::Brewing ==> final(self).decisions()
                == (CoreView { brew_start_time_ms: Some(now_ms), ..old(self).decisions() })
                && r@ == seq![ControllerAction::RelayOn(RelayRequest::BrewTransition)],
            transition.from == BrewState::Brewing && transition.to == BrewState::BrewSettling ==> final(self).decisions()
                == (CoreView { brew_start_time_ms: None, ..old(self).decisions() })
                && r@ == seq![ControllerAction::RelayOff(RelayRequest::BrewTransition)],
            !(transition.from == BrewState::Idle && transition.to == BrewState::Brewing)
                && !(transition.from == BrewState::Brewing && transition.to == BrewState::BrewSettling)
                ==> final(self).decisions() == old(self).decisions() && r@.len() == 0,
            final(self).brew_controller == old(self).brew_controller,
    {
        let mut actions: Vec<ControllerAction> = Vec::new();
        match (transition.from, transition.to) {
            (BrewState::Idle, BrewState::Brewing) => {
                self.brew_start_time_ms = Some(now_ms);
                actions.push(ControllerAction::RelayOn(RelayRequest::BrewTransition));
            },
            (BrewState::Brewing, BrewState::BrewSettling) => {
                self.brew_start_time_ms = None;
                actions.push(ControllerAction::RelayOff(RelayRequest::BrewTransition));
            },
            _ => {},
        }
        proof {
            assert(actions@ =~= seq![ControllerAction::RelayOn(RelayRequest::BrewTransition)] || actions@
                =~= seq![ControllerAction::RelayOff(RelayRequest::BrewTransition)] || actions@.len() == 0);
        }
        actions
    }

    /// A scale event.
    pub fn handle_scale_event(&mut self, scale_event_in: ScaleEvent, now_ms: u64) -> (r: Vec<ControllerAction>)
        requires
            old(self).wf(),
        ensures
            final(self).wf(),
            (final(self).decisions(), r@) == scale_event(old(self).decisions(), scale_event_in, now_ms),
    {
        match scale_event_in {
            ScaleEvent::WeightChanged { data } => {
                let mut detected = self.scale_event_detector.process_data(&data, now_ms);
                let ghost evs = detected@;
                let ghost total = detected@.len();
                let mut actions: Vec<ControllerAction> = Vec::new();
                let mut i: usize = 0;
                let n = detected.len();
                while detected.len() > 0
                    invariant
                        i + detected@.len() == n,
                        n == evs.len(),
                        detected@ == evs.skip(i as int),
                        actions@ == evs.take(i as int).map_values(
                            |e: ScaleEvent| ControllerAction::Publish(SystemEvent::Scale(e)),
                        ),
                    decreases detected@.len(),
                {
                    let e = detected.remove(0);
                    proof {
                        assert(e == evs[i as int]);
                        assert(evs.take(i as int + 1) =~= evs.take(i as int).push(e));
                    }
                    actions.push(ControllerAction::Publish(SystemEvent::Scale(e)));
                    i = i + 1;
                    proof {
                        assert(detected@ =~= evs.skip(i as int));
                        assert(actions@ =~= evs.take(i as int).map_values(
                            |e: ScaleEvent| ControllerAction::Publish(SystemEvent::Scale(e)),
                        ));
                    }
                }
                proof {
                    assert(evs.take(i as int) =~= evs);
                }
                self.state_manager.update_scale_data(data);
                let mut more = self.feed_machine(BrewInput::ScaleData(data), now_ms);
                actions.append(&mut more);
                actions
            },
            ScaleEvent::Connected { info: _ } => {
                self.state_manager.set_ble_connected(true);
                self.feed_machine(BrewInput::ScaleConnected, now_ms)
            },
            ScaleEvent::Disconnected { reason: _ } => {
                self.state_manager.set_ble_connected(false);
                self.feed_machine(BrewInput::ScaleDisconnected, now_ms)
            },
            ScaleEvent::ButtonPressed(button) => {
                let mut actions: Vec<ControllerAction> = Vec::new();
                match button {
                    ScaleButton::Tare => {
                        actions.push(ControllerAction::Publish(SystemEvent::User(UserEvent::TareScale)));
                    },
                    ScaleButton::Timer => {
                        actions.push(ControllerAction::Publish(SystemEvent::User(UserEvent::StartBrewing)));
                    },
                    _ => {},
                }
                proof {
                    assert(actions@ =~= scale_event(old(self).decisions(), scale_event_in, now_ms).1);
                }
                actions
            },
            ScaleEvent::TimerStarted { timestamp_ms: _ } => {
                let mut actions: Vec<ControllerAction> = Vec::new();
                actions.push(ControllerAction::Publish(SystemEvent::User(UserEvent::StartBrewing)));
                proof {
                    assert(actions@ =~= scale_event(old(self).decisions(), scale_event_in, now_ms).1);
                }
                actions
            },
            ScaleEvent::TimerStopped { timestamp_ms: _ } => {
                let mut actions: Vec<ControllerAction> = Vec::new();
                actions.push(ControllerAction::Publish(SystemEvent::User(UserEvent::StopBrewing)));
                proof {
                    assert(actions@ =~= scale_event(old(self).decisions(), scale_event_in, now_ms).1);
                }
                actions
            },
            _ => Vec::new(),
        }
    }

    /// A brew milestone.
    pub fn handle_brew_event(&mut self, brew_event_in: BrewEvent)
        ensures
            final(self).decisions() == brew_event(old(self).decisions(), brew_event_in),
            final(self).brew_controller == old(self).brew_controller,
    {
        match brew_event_in {
            BrewEvent::StateChanged { from: _, to } => {
                self.state_manager.update_brew_state(to);
            },
            BrewEvent::Started { target_weight_cg: _ } => {
                self.state_manager.add_log(String::from_str("Brewing started"));
            },
            BrewEvent::Finished { final_weight_cg: _, duration_ms: _ } => {
                self.state_manager.add_log(String::from_str("Brewing finished"));
            },
            _ => {},
        }
    }

    /// A time event: each tick runs the safety check (publishing an emergency
    /// stop when it fails), feeds the machine and checks settling.
    pub fn handle_time_event(&mut self, time_event_in: TimeEvent, now_ms: u64) -> (r: Vec<ControllerAction>)
        requires
            old(self).wf(),
        ensures
            final(self).wf(),
            time_event_in is Tick ==> {
                let stop = safety_stop(old(self).decisions(), now_ms);
                let k: int = if stop { 1 } else { 0 };
                &&& final(self).decisions() == tick(old(self).decisions(), now_ms).0
                &&& r@.len() == k + tick(old(self).decisions(), now_ms).1.len()
                &&& stop ==> stop_request(r@[0], "Safety check failed"@)
                &&& r@.skip(k) == tick(old(self).decisions(), now_ms).1
            },
            time_event_in is SettlingTimeout ==> (final(self).decisions(), r@) == feed(
                old(self).decisions(),
                BrewInput::SettlingTimeout,
                now_ms,
            ),
            !(time_event_in is Tick) && !(time_event_in is SettlingTimeout) ==> final(self).decisions()
                == old(self).decisions() && r@.len() == 0,
    {
        match time_event_in {
            TimeEvent::Tick => {
                let current = self.state_manager.get_full_state();
                let mut actions: Vec<ControllerAction> = Vec::new();
                if self.safety_controller.should_emergency_stop(&current, now_ms) {
                    let reason = String::from_str("Safety check failed");
                    actions.push(
                        ControllerAction::Publish(SystemEvent::Safety(SafetyEvent::EmergencyStop { reason })),
                    );
                }
                let ghost head = actions@;
                let mut ticked = self.feed_machine(BrewInput::Tick, now_ms);
                let mut settled = self.settle_machine(now_ms);
                actions.append(&mut ticked);
                actions.append(&mut settled);
                proof {
                    let stop = safety_stop(old(self).decisions(), now_ms);
                    let k: int = if stop { 1 } else { 0 };
                    assert(actions@.skip(k) =~= tick(old(self).decisions(), now_ms).1);
                }
                actions
            },
            TimeEvent::SettlingTimeout => self.feed_machine(BrewInput::SettlingTimeout, now_ms),
            _ => Vec::new(),
        }
    }

    /// A safety event: an emergency stop switches the relay off, stops the
    /// machine and records the reason; alerts are only reported.
    pub fn handle_safety_event(&mut self, safety_event_in: SafetyEvent, now_ms: u64) -> (r: Vec<ControllerAction>)
        requires
            old(self).wf(),
        ensures
            final(self).wf(),
            safety_event_in matches SafetyEvent::EmergencyStop { reason } ==> (final(self).decisions(), r@)
                == safety_emergency(old(self).decisions(), reason@, now_ms),
            !(safety_event_in is EmergencyStop) ==> final(self).decisions() == old(self).decisions() && r@.len() == 0,
    {
        match safety_event_in {
            SafetyEvent::EmergencyStop { reason } => {
                let mut actions: Vec<ControllerAction> = Vec::new();
                actions.push(ControllerAction::Publish(SystemEvent::Hardware(HardwareEvent::RelayOff)));
                let mut more = self.brew_controller.emergency_stop(now_ms);
                let mut rest = self.handle_brew_outputs(&more);
                actions.append(&mut rest);
                self.state_manager.set_error(Some(reason));
                proof {
                    assert(actions@ =~= safety_emergency(old(self).decisions(), reason@, now_ms).1);
                }
                actions
            },
            _ => Vec::new(),
        }
    }

    /// A network event.
    pub fn handle_network_event(&mut self, network_event_in: NetworkEvent)
        ensures
            final(self).decisions() == network_event(old(self).decisions(), network_event_in),
            final(self).brew_controller == old(self).brew_controller,
    {
        match network_event_in {
            NetworkEvent::WifiConnected { ssid: _ } => {
                self.state_manager.set_wifi_connected(true);
            },
            NetworkEvent::WifiDisconnected => {
                self.state_manager.set_wifi_connected(false);
            },
            NetworkEvent::BleConnected { device_name: _ } => {
                self.state_manager.set_ble_connected(true);
            },
            NetworkEvent::BleDisconnected => {
                self.state_manager.set_ble_connected(false);
            },
            _ => {},
        }
    }

    /// The hardware work a hardware event asks for; nothing else changes.
    pub fn handle_hardware_side_effects(&self, event: SystemEvent) -> (r: Vec<ControllerAction>)
        ensures
            r@ == hardware_actions(event),
    {
        let mut actions: Vec<ControllerAction> = Vec::new();
        match event {
            SystemEvent::Hardware(HardwareEvent::RelayOn) => {
                actions.push(ControllerAction::RelayOn(RelayRequest::HardwareEvent));
            },
            SystemEvent::Hardware(HardwareEvent::RelayOff) => {
                actions.push(ControllerAction::RelayOff(RelayRequest::HardwareEvent));
            },
            SystemEvent::Hardware(HardwareEvent::SendScaleCommand(cmd)) => {
                actions.push(ControllerAction::SendScaleCommand(cmd));
            },
            _ => {},
        }
        proof {
            assert(actions@ =~= hardware_actions(event));
        }
        actions
    }

    /// Stops brewing for `reason`: cancels a pending stop and logs.
    fn stop_brewing_with_reason(&mut self, reason: &str)
        ensures
            final(self).decisions() == stop_with_reason(old(self).decisions(), reason@),
            final(self).brew_controller == old(self).brew_controller,
    {
        self.pending_stop_time_ms = None;
        let msg = String::from_str("Brewing stopped (").concat(reason).concat(")");
        self.state_manager.add_log(msg);
    }

    /// Brewing logic of the polling loop.
    fn handle_brewing_logic(&mut self, scale_data: &ScaleData, now_ms: u64)
        ensures
            final(self).decisions() == brewing_logic(old(self).decisions(), *scale_data, now_ms),
            final(self).brew_controller == old(self).brew_controller,
    {
        if !self.state_manager.is_predictive_stop_enabled() {
            return;
        }
        if let Some(brew_start) = self.brew_start_time_ms {
            if elapsed_since(now_ms, brew_start) < STARTUP_DELAY_MS {
                return;
            }
        }
        let target = self.state_manager.get_target_weight();
        self.handle_auto_stop(scale_data, target);
    }

    /// Stops the shot once the target is reached after the first second.
    fn handle_auto_stop(&mut self, scale_data: &ScaleData, target_weight_cg: i32)
        ensures
            scale_data.weight_cg >= target_weight_cg && scale_data.timestamp_ms > 1000 ==> final(self).decisions()
                == stop_with_reason(old(self).decisions(), "target_reached"@),
            !(scale_data.weight_cg >= target_weight_cg && scale_data.timestamp_ms > 1000) ==> final(self).decisions()
                == old(self).decisions(),
            final(self).brew_controller == old(self).brew_controller,
    {
        if scale_data.weight_cg >= target_weight_cg && scale_data.timestamp_ms > 1000 {
            self.stop_brewing_with_reason("target_reached");
        }
    }

    /// A reading in the polling control loop.
    pub fn handle_scale_data(&mut self, scale_data: ScaleData, now_ms: u64) -> (r: Vec<ControllerAction>)
        requires
            old(self).wf(),
        ensures
            final(self).wf(),
            (final(self).decisions(), r@) == scale_data_step(old(self).decisions(), scale_data, now_ms),
    {
        self.safety_controller.update_data_received(now_ms);
        self.state_manager.update_scale_data(scale_data);
        self.handle_timer_detection(&scale_data, now_ms);
        let actions = self.feed_machine(BrewInput::ScaleData(scale_data), now_ms);
        if self.state_manager.get_timer_state() == TimerState::Running {
            self.handle_brewing_logic(&scale_data, now_ms);
        }
        actions
    }

    /// The periodic update of the polling control loop.
    pub fn periodic_update(&mut self, now_ms: u64) -> (r: Vec<ControllerAction>)
        requires
            old(self).wf(),
        ensures
            final(self).wf(),
            (final(self).decisions(), r@) == periodic(old(self).decisions(), now_ms),
    {
        let current = self.state_manager.get_full_state();
        let mut actions: Vec<ControllerAction> = Vec::new();
        if self.safety_controller.should_emergency_stop(&current, now_ms) {
            actions = self.emergency_stop();
        }
        self.safety_controller.update_relay_state(current.relay_enabled);
        if let Some(stop_time) = self.pending_stop_time_ms {
            if now_ms >= stop_time {
                self.pending_stop_time_ms = None;
                if self.state_manager.get_timer_state() == TimerState::Running {
                    self.stop_brewing_with_reason("predicted");
                }
            }
        }
        actions
    }

    /// Resets the scale event detection.
    pub fn reset_scale_event_detection(&mut self)
        ensures
            final(self).decisions() == (CoreView {
                history: Seq::empty(),
                detector: initial_detector_state(),
                ..old(self).decisions()
            }),
            final(self).brew_controller == old(self).brew_controller,
    {
        self.scale_event_detector.reset();
    }

    /// Whether the detector believes the timer runs, and its stable weight.
    pub fn get_scale_detector_state(&self) -> (r: (bool, Option<i32>))
        ensures
            r == (
                self.scale_event_detector.detector_state().timer_running,
                self.scale_event_detector.detector_state().last_stable_weight_cg,
            ),
    {
        (self.scale_event_detector.is_timer_running(), self.scale_event_detector.get_stable_weight())
    }

    /// Any event other than a hardware one, dispatched by kind.
    pub fn handle_system_event(&mut self, event: SystemEvent, now_ms: u64) -> (r: Vec<ControllerAction>)
        requires
            old(self).wf(),
        ensures
            final(self).wf(),
            event matches SystemEvent::Scale(e) ==> (final(self).decisions(), r@) == scale_event(
                old(self).decisions(),
                e,
                now_ms,
            ),
            event matches SystemEvent::User(e) ==> {
                &&& e == UserEvent::EmergencyStop ==> final(self).decisions() == old(self).decisions()
                    && r@.len() == 1 && stop_request(r@[0], "User emergency stop"@)
                &&& e != UserEvent::EmergencyStop ==> (final(self).decisions(), r@) == user_event(
                    old(self).decisions(),
                    e,
                    now_ms,
                )
            },
            event matches SystemEvent::Brew(e) ==> final(self).decisions() == brew_event(old(self).decisions(), e)
                && r@.len() == 0,
            event matches SystemEvent::Time(e) ==> {
                &&& e is Tick ==> {
                    let stop = safety_stop(old(self).decisions(), now_ms);
                    let k: int = if stop { 1 } else { 0 };
                    &&& final(self).decisions() == tick(old(self).decisions(), now_ms).0
                    &&& r@.len() == k + tick(old(self).decisions(), now_ms).1.len()
                    &&& stop ==> stop_request(r@[0], "Safety check failed"@)
                    &&& r@.skip(k) == tick(old(self).decisions(), now_ms).1
                }
                &&& e is SettlingTimeout ==> (final(self).decisions(), r@) == feed(
                    old(self).decisions(),
                    BrewInput::SettlingTimeout,
                    now_ms,
                )
                &&& !(e is Tick) && !(e is SettlingTimeout) ==> final(self).decisions() == old(self).decisions()
                    && r@.len() == 0
            },
            event matches SystemEvent::Safety(e) ==> {
                &&& e matches SafetyEvent::EmergencyStop { reason } ==> (final(self).decisions(), r@)
                    == safety_emergency(old(self).decisions(), reason@, now_ms)
                &&& !(e is EmergencyStop) ==> final(self).decisions() == old(self).decisions() && r@.len() == 0
            },
            event matches SystemEvent::Network(e) ==> final(self).decisions() == network_event(
                old(self).decisions(),
                e,
            ) && r@.len() == 0,
            event is Hardware ==> final(self).decisions() == old(self).decisions() && r@.len() == 0,
    {
        match event {
            SystemEvent::Scale(e) => self.handle_scale_event(e, now_ms),
            SystemEvent::User(e) => self.handle_user_event(e, now_ms),
            SystemEvent::Brew(e) => {
                self.handle_brew_event(e);
                Vec::new()
            },
            SystemEvent::Time(e) => self.handle_time_event(e, now_ms),
            SystemEvent::Safety(e) => self.handle_safety_event(e, now_ms),
            SystemEvent::Network(e) => {
                self.handle_network_event(e);
                Vec::new()
            },
            SystemEvent::Hardware(_) => Vec::new(),
        }
    }

    /// A snapshot for monitoring.
    pub fn get_comprehensive_status(&self) -> (r: ComprehensiveStatus)
        ensures
            r.system_state == self.brew_controller@.0,
            r.scale_detector_timer_running == self.scale_event_detector.detector_state().timer_running,
            r.scale_detector_stable_weight_cg == self.scale_event_detector.detector_state().last_stable_weight_cg,
            r.system_enabled == self.brew_controller@.1.system_enabled,
            crate::state::same_fields_but_log(r.state_manager_state, self.state_manager.state),
    {
        let (timer_running, stable_weight) = self.get_scale_detector_state();
        ComprehensiveStatus {
            system_state: self.brew_controller.get_system_state(),
            scale_detector_timer_running: timer_running,
            scale_detector_stable_weight_cg: stable_weight,
            system_enabled: self.brew_controller.is_system_enabled(),
            state_manager_state: self.state_manager.get_full_state(),
        }
    }
}

/// When the state machine asks for the relay to go off, the controller
/// publishes the relay-off hardware event and the shared state shows the
/// relay off; likewise for on.
pub proof fn law_relay_outputs_followed(v: StateView, on: bool)
    ensures
        ({
            let o = if on { BrewOutput::RelayOn } else { BrewOutput::RelayOff };
            let e = if on { HardwareEvent::RelayOn } else { HardwareEvent::RelayOff };
            &&& brew_output_actions(o) == seq![ControllerAction::Publish(SystemEvent::Hardware(e))]
            &&& apply_ops(v, brew_output_ops(o)).relay_enabled == on
        }),
{
    let o = if on { BrewOutput::RelayOn } else { BrewOutput::RelayOff };
    lemma_apply_one(v, StateOp::Relay(on));
}

/// After an emergency stop the relay is shown off, the shot and the timer
/// are idle, the error is recorded, no stop is pending, and the relay pin is
/// cut at once whenever the relay was last seen on.
pub proof fn law_emergency_stop_leaves_system_safe(c: CoreView)
    ensures
        ({
            let (c2, a) = emergency(c);
            &&& !c2.sm.relay_enabled
            &&& c2.sm.brew_state == BrewState::Idle
            &&& c2.sm.timer_state == TimerState::Idle
            &&& c2.sm.last_error == Some("Emergency stop activated"@)
            &&& c2.pending_stop_time_ms is None
            &&& c2.brew_start_time_ms is None
            &&& !c2.safety.last_relay_state
            &&& a == (if c.safety.last_relay_state {
                seq![ControllerAction::RelayOffImmediately]
            } else {
                Seq::<ControllerAction>::empty()
            })
        }),
{
}

/// An emergency stop event switches the relay off before anything else and
/// records its reason.
pub proof fn law_emergency_event_cuts_relay_first(c: CoreView, reason: Seq<char>, now: u64)
    ensures
        ({
            let (c2, a) = safety_emergency(c, reason, now);
            &&& a.len() >= 1
            &&& a[0] == ControllerAction::Publish(SystemEvent::Hardware(HardwareEvent::RelayOff))
            &&& c2.sm.last_error == Some(reason)
        }),
{
}

/// Losing the scale's connection is always recorded: the state shows the
/// scale disconnected and the error "BLE disconnected".
pub proof fn law_ble_loss_recorded(c: CoreView, now: u64)
    ensures
        ({
            let (c2, _a) = ble_status_change(c, false, now);
            &&& !c2.sm.ble_connected
            &&& c2.sm.last_error == Some("BLE disconnected"@)
        }),
{
}

/// The periodic safety check never stops a shot while the timer is not
/// running, and always stops a running shot when the scale or Wi-Fi is lost.
pub proof fn law_safety_check_only_while_running(c: CoreView, now: u64)
    ensures
        c.sm.timer_state != TimerState::Running ==> !safety_stop(c, now),
        c.sm.timer_state == TimerState::Running && !c.sm.ble_connected ==> safety_stop(c, now),
        c.sm.timer_state == TimerState::Running && !c.sm.wifi_connected ==> safety_stop(c, now),
{
}

/// A frozen or zeroed scale timestamp stops a running timer.
pub proof fn law_frozen_timer_stops(c: CoreView, d: ScaleData, now: u64)
    requires
        c.last_timer_ms is Some,
        c.current_timer_running,
        d.timestamp_ms == 0 || d.timestamp_ms == c.last_timer_ms->0,
    ensures
        !timer_detection(c, d, now).current_timer_running,
        timer_detection(c, d, now).sm.timer_state == TimerState::Idle,
        timer_detection(c, d, now).last_timer_ms == Some(d.timestamp_ms),
{
}

/// Every web command has a user event, and the relay test never reaches the
/// state machine: it changes nothing and only asks for the test.
pub proof fn law_relay_test_only_asks_hardware(c: CoreView, now: u64)
    ensures
        websocket_command(c, WebSocketCommand::TestRelay, now) == (c, seq![ControllerAction::TestRelay]),
        ws_user_event(WebSocketCommand::TestRelay) == UserEvent::TestRelay,
{
}

/// The state changes of an output other than the two relay outputs leave the
/// relay flag as it was.
proof fn lemma_output_keeps_relay(w: StateView, o: BrewOutput)
    requires
        o != BrewOutput::RelayOn,
        o != BrewOutput::RelayOff,
    ensures
        apply_ops(w, brew_output_ops(o)).relay_enabled == w.relay_enabled,
{
    let ops = brew_output_ops(o);
    if ops.len() == 0 {
    } else if ops.len() == 1 {
        lemma_apply_one(w, ops[0]);
    } else {
        assert(ops.drop_last() =~= seq![ops[0]]);
        lemma_apply_one(w, ops[0]);
    }
}

/// A batch of outputs that turns the relay off and never on leaves the relay
/// shown off.
proof fn lemma_relay_off_batch(v: StateView, outs: Seq<BrewOutput>)
    requires
        no_relay_on(outs),
        outs.contains(BrewOutput::RelayOff),
    ensures
        !apply_ops(v, outputs_ops(outs)).relay_enabled,
    decreases outs.len(),
{
    let init = outs.drop_last();
    let last = outs.last();
    lemma_apply_concat(v, outputs_ops(init), brew_output_ops(last));
    if last == BrewOutput::RelayOff {
        lemma_apply_one(apply_ops(v, outputs_ops(init)), StateOp::Relay(false));
    } else {
        let i = choose|i: int| 0 <= i < outs.len() && outs[i] == BrewOutput::RelayOff;
        assert(init[i] == BrewOutput::RelayOff);
        assert(no_relay_on(init)) by {
            assert forall|j: int| 0 <= j < init.len() implies #[trigger] init[j] != BrewOutput::RelayOn by {
                assert(init[j] == outs[j]);
            }
        }
        assert(last != BrewOutput::RelayOn) by {
            assert(outs[outs.len() - 1] != BrewOutput::RelayOn);
        }
        lemma_relay_off_batch(v, init);
        lemma_output_keeps_relay(apply_ops(v, outputs_ops(init)), last);
    }
}

/// An emergency stop event, in any state of the machine but the disabled and
/// the Wi-Fi states, leaves the relay shown off.
pub proof fn law_emergency_event_leaves_relay_off(c: CoreView, reason: Seq<char>, now: u64)
    requires
        c.machine.0 == MachineState::BleDisabled || c.machine.0 == MachineState::BleEnabled
            || c.machine.0 == MachineState::BleScanning || c.machine.0 == MachineState::BleConnecting
            || c.machine.0 == MachineState::ScaleDisconnected || c.machine.0 == MachineState::Idle
            || c.machine.0 == MachineState::Brewing || c.machine.0 == MachineState::Settling,
    ensures
        !safety_emergency(c, reason, now).0.sm.relay_enabled,
{
    let outs = controller_step(c.machine.0, c.machine.1, BrewInput::EmergencyStop, now).2;
    law_emergency_stop_relay_off(c.machine.0, c.machine.1, now);
    law_relay_on_only_when_brewing_starts(c.machine.0, c.machine.1, BrewInput::EmergencyStop, now);
    lemma_relay_off_batch(c.sm, outs);
}

} // verus!
