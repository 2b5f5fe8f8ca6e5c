use gravel_rs::brewing::states::BrewOutput;
use gravel_rs::controller::{ControllerAction, EspressoController, RelayRequest};
use gravel_rs::safety::SafetyController;
use gravel_rs::scales::traits::ScaleCommand;
use gravel_rs::server::http::{build_state_response, WebSocketCommand};
use gravel_rs::state::StateManager;
use gravel_rs::system::events::{HardwareEvent, SafetyEvent, SystemEvent, UserEvent};
use gravel_rs::types::{BrewState, ScaleData, SystemState, TimerState};

fn logs(c: &EspressoController) -> Vec<String> {
    c.state_manager.state.log_messages.iter().cloned().collect()
}

fn reading(ts: u32, weight_cg: i32, flow: i32) -> ScaleData {
    ScaleData {
        timestamp_ms: ts,
        weight_cg,
        flow_rate_cg_per_s: flow,
        battery_percent: 80,
        timer_running: ts > 0,
        received_at_ms: 0,
    }
}

#[test]
fn relay_output_publishes_and_records() {
    let mut c = EspressoController::new();
    let a = c.handle_brew_output(BrewOutput::RelayOn);
    assert_eq!(a.len(), 1);
    assert!(matches!(a[0], ControllerAction::Publish(SystemEvent::Hardware(HardwareEvent::RelayOn))));
    assert!(c.state_manager.is_relay_enabled());
    assert_eq!(logs(&c), vec!["[1] Relay: ON".to_string()]);
    let a = c.handle_brew_output(BrewOutput::RelayOff);
    assert!(matches!(a[0], ControllerAction::Publish(SystemEvent::Hardware(HardwareEvent::RelayOff))));
    assert!(!c.state_manager.is_relay_enabled());
    assert_eq!(logs(&c)[1], "[2] Relay: OFF");
}

#[test]
fn scale_command_outputs_become_hardware_events() {
    let mut c = EspressoController::new();
    let a = c.handle_brew_output(BrewOutput::TareScale);
    assert!(matches!(
        a[0],
        ControllerAction::Publish(SystemEvent::Hardware(HardwareEvent::SendScaleCommand(ScaleCommand::Tare)))
    ));
    assert!(logs(&c).is_empty());
}

#[test]
fn learning_and_network_outputs_are_logged() {
    let mut c = EspressoController::new();
    c.handle_brew_output(BrewOutput::OvershootLearningUpdated { delay_ms: 480, ewma_cg: 135, confidence_permille: 500 });
    c.handle_brew_output(BrewOutput::PredictiveStopScheduled { delay_ms: -20, predicted_weight_cg: 3600 });
    c.handle_brew_output(BrewOutput::NetworkStatusChanged { ble_enabled: true, wifi_connected: false });
    c.handle_brew_output(BrewOutput::ConnectToWifi { ssid: "home".to_string(), password: "pw".to_string() });
    assert_eq!(
        logs(&c),
        vec![
            "[1] Overshoot learning: delay=480ms, ewma=1.4g".to_string(),
            "[2] Predictive stop scheduled: -20ms delay".to_string(),
            "[3] BLE: Connected".to_string(),
            "[4] Network status: BLE=true, WiFi=false".to_string(),
            "[5] WiFi connecting to home".to_string(),
        ]
    );
    assert!(c.state_manager.is_ble_connected());
}

#[test]
fn websocket_commands_map_to_user_events() {
    let c = EspressoController::new();
    assert_eq!(c.websocket_to_user_event(WebSocketCommand::StartTimer), Some(UserEvent::StartBrewing));
    assert_eq!(c.websocket_to_user_event(WebSocketCommand::StopTimer), Some(UserEvent::StopBrewing));
    assert_eq!(
        c.websocket_to_user_event(WebSocketCommand::SetTargetWeight { weight_cg: 4000 }),
        Some(UserEvent::SetTargetWeight(4000))
    );
}

#[test]
fn websocket_target_and_relay_test() {
    let mut c = EspressoController::new();
    let a = c.handle_websocket_command(WebSocketCommand::SetTargetWeight { weight_cg: 4200 }, 0);
    assert!(a.is_empty());
    assert_eq!(c.state_manager.get_target_weight(), 4200);
    assert_eq!(c.brew_controller.get_context().target_weight_cg, 4200);
    let a = c.handle_websocket_command(WebSocketCommand::TestRelay, 0);
    assert!(matches!(a[0], ControllerAction::TestRelay));
    c.on_relay_test_result(false);
    assert_eq!(logs(&c).last().unwrap(), "[2] Relay test failed");
}

#[test]
fn user_emergency_stop_is_published() {
    let mut c = EspressoController::new();
    let a = c.handle_user_event(UserEvent::EmergencyStop, 0);
    assert_eq!(a.len(), 1);
    match &a[0] {
        ControllerAction::Publish(SystemEvent::Safety(SafetyEvent::EmergencyStop { reason })) => {
            assert_eq!(reason, "User emergency stop")
        }
        _ => panic!("expected an emergency stop"),
    }
}

#[test]
fn ble_loss_is_recorded() {
    let mut c = EspressoController::new();
    c.handle_ble_status_change(true, 0);
    c.handle_ble_status_change(false, 10);
    assert!(!c.state_manager.is_ble_connected());
    assert_eq!(c.state_manager.state.last_error.as_deref(), Some("BLE disconnected"));
}

#[test]
fn timer_detection_starts_and_stops() {
    let mut c = EspressoController::new();
    c.handle_timer_detection(&reading(0, 0, 0), 0);
    assert_eq!(c.state_manager.get_timer_state(), TimerState::Idle);
    c.handle_timer_detection(&reading(100, 0, 0), 100);
    assert_eq!(c.state_manager.get_timer_state(), TimerState::Running);
    assert_eq!(c.timer_start_time_ms, Some(100));
    c.handle_timer_detection(&reading(100, 0, 0), 200);
    assert_eq!(c.state_manager.get_timer_state(), TimerState::Idle);
}

#[test]
fn timer_start_ignored_at_shutdown_flow() {
    let mut c = EspressoController::new();
    c.handle_timer_detection(&reading(0, 0, 0), 0);
    c.handle_timer_detection(&reading(100, 0, 3000), 100);
    assert_eq!(c.state_manager.get_timer_state(), TimerState::Idle);
    assert_eq!(c.last_timer_ms, Some(0));
}

#[test]
fn failed_relay_switch_on_triggers_emergency_stop() {
    let mut c = EspressoController::new();
    c.safety_controller.update_relay_state(true);
    c.state_manager.update_brew_state(BrewState::Brewing);
    let a = c.on_relay_result(RelayRequest::BrewTransition, true, false);
    assert_eq!(a.len(), 1);
    assert!(matches!(a[0], ControllerAction::RelayOffImmediately));
    assert_eq!(c.state_manager.get_brew_state(), BrewState::Idle);
    assert!(!c.state_manager.is_relay_enabled());
    assert_eq!(c.state_manager.state.last_error.as_deref(), Some("Emergency stop activated"));
}

#[test]
fn hardware_events_become_hardware_work() {
    let c = EspressoController::new();
    let a = c.handle_hardware_side_effects(SystemEvent::Hardware(HardwareEvent::RelayOn));
    assert!(matches!(a[0], ControllerAction::RelayOn(RelayRequest::HardwareEvent)));
    let a = c.handle_hardware_side_effects(SystemEvent::Hardware(HardwareEvent::SendScaleCommand(ScaleCommand::StopTimer)));
    assert!(matches!(a[0], ControllerAction::SendScaleCommand(ScaleCommand::StopTimer)));
    let a = c.handle_hardware_side_effects(SystemEvent::User(UserEvent::TareScale));
    assert!(a.is_empty());
}

#[test]
fn state_manager_log_is_bounded_and_numbered() {
    let mut m = StateManager::new();
    for i in 0..105 {
        m.add_log(format!("m{}", i));
    }
    let entries: Vec<String> = m.state.log_messages.iter().cloned().collect();
    assert_eq!(entries.len(), 100);
    assert_eq!(entries[0], "[6] m5");
    assert_eq!(entries[99], "[105] m104");
}

#[test]
fn state_manager_logs_only_changes() {
    let mut m = StateManager::new();
    m.set_relay_enabled(false);
    m.update_timer_state(TimerState::Running);
    m.update_timer_state(TimerState::Running);
    m.update_scale_data(reading(10, -5, 1234));
    let entries: Vec<String> = m.state.log_messages.iter().cloned().collect();
    assert_eq!(entries, vec!["[1] Timer: Running".to_string(), "[2] Scale: -0.05g, 12.34g/s".to_string()]);
    assert_eq!(m.get_current_weight(), Some(-5));
}

#[test]
fn safety_stops_only_running_shots() {
    let mut s = SafetyController::new();
    let mut st = SystemState::default();
    assert!(!s.should_emergency_stop(&st, 0));
    st.timer_state = TimerState::Running;
    st.ble_connected = true;
    st.wifi_connected = true;
    assert!(s.should_emergency_stop(&st, 0));
    s.update_data_received(1000);
    assert!(!s.should_emergency_stop(&st, 11000));
    assert!(s.should_emergency_stop(&st, 11001));
}

#[test]
fn safety_stops_on_wifi_loss() {
    let mut s = SafetyController::new();
    let mut st = SystemState::default();
    st.timer_state = TimerState::Running;
    st.ble_connected = true;
    st.wifi_connected = true;
    s.update_data_received(1000);
    assert!(!s.should_emergency_stop(&st, 2000));
    st.wifi_connected = false;
    assert!(s.should_emergency_stop(&st, 2000));
}

#[test]
fn health_warnings() {
    let mut s = SafetyController::new();
    let st = SystemState::default();
    assert_eq!(
        s.check_system_health(&st, 0),
        vec!["BLE not connected".to_string(), "Wi-Fi not connected".to_string(), "No scale data received".to_string()]
    );
    s.update_data_received(1000);
    let mut st2 = SystemState::default();
    st2.ble_connected = true;
    st2.wifi_connected = true;
    st2.scale_data = Some(ScaleData {
        timestamp_ms: 0,
        weight_cg: 0,
        flow_rate_cg_per_s: 0,
        battery_percent: 15,
        timer_running: false,
        received_at_ms: 0,
    });
    assert_eq!(
        s.check_system_health(&st2, 8000),
        vec!["No scale data for 7s".to_string(), "Low battery: 15%".to_string()]
    );
    assert!(s.handle_emergency_stop() == false);
}

#[test]
fn state_response_reflects_state() {
    let mut st = SystemState::default();
    st.brew_state = BrewState::BrewSettling;
    st.relay_enabled = true;
    let r = build_state_response(&st, 77);
    assert_eq!(r.system_state.brew_state, "BrewSettling");
    assert_eq!(r.system_state.timer_state, "Idle");
    assert_eq!(r.system_state.target_weight_cg, 3600);
    assert!(r.system_state.relay_enabled);
    assert_eq!(r.system_state.overshoot_info, "Learning data not available");
    assert_eq!(r.timestamp, 77);
    assert!(r.scale_data.is_none());
}

#[test]
fn emergency_event_leaves_relay_off() {
    let mut c = EspressoController::new();
    c.handle_brew_output(BrewOutput::RelayOn);
    assert!(c.state_manager.is_relay_enabled());
    let a = c.handle_safety_event(SafetyEvent::EmergencyStop { reason: "Overheat".to_string() }, 10);
    assert!(matches!(a[0], ControllerAction::Publish(SystemEvent::Hardware(HardwareEvent::RelayOff))));
    assert!(!c.state_manager.is_relay_enabled());
    assert_eq!(c.state_manager.state.last_error.as_deref(), Some("Overheat"));
}
