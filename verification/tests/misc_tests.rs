use gravel_rs::brewing::states::{BrewInput, BrewOutput, SystemState as MachineState};
use gravel_rs::ble_bindings::{DiscoveryAction, DiscoveryEvent, DiscoverySession};
use gravel_rs::auto_tare::AutoTareController;
use gravel_rs::hardware::display::{boot_screen_layout, progress_bar_width, refresh_layout, DisplayState};
use gravel_rs::ble_bindings::{ cccd_candidates, discovery_step, on_connection_event, ConnectionEvent, DiscoveryOutcome, DiscoveryState, GattEvent, LinkState, BOOKOO_SERVICE_UUID, };
use gravel_rs::system::events::{EventFilter, SystemEvent, TimeEvent, UserEvent};
use gravel_rs::brewing::controller::BrewController;
use gravel_rs::scales::integration_example::{default_scanner, scanner_for_types, scale_info_text};
use gravel_rs::scales::traits::{ScaleCapabilities, ScaleInfo};
use gravel_rs::ble::{parse_device_name, BleError, Characteristic, Device, DeviceFilter, BleAddress, Service, Uuid};
use gravel_rs::ble_bindings::{is_bookoo_name, uuid_matches, WEIGHT_CHAR_UUID};
use gravel_rs::ble::HostUuid;
use gravel_rs::bookoo_scale::{
    check_command_ready, command_bytes, find_scale_service, no_data_tick, select_characteristics,
    select_scale_device, ScaleError,
};
use gravel_rs::brew_states::{BrewStateMachine, BrewStateTransition};
use gravel_rs::hardware::relay::{RelayError, RelayState};
use gravel_rs::nvs_storage::{record_brew, reset_learning_data, BrewSettings, BrewStatistics};
use gravel_rs::protocol::TARE_COMMAND;
use gravel_rs::scales::traits::ScaleCommand;
use gravel_rs::text::decimal_string;
use gravel_rs::types::{BrewState, ScaleData, TimerState};
use gravel_rs::wifi::provisioning::{generate_device_name, provisioning_qr_payload};
use gravel_rs::wifi_manager::{wifi_start_step, wifi_status, WifiStartEvent, WifiStartStep};

fn reading(weight_cg: i32) -> ScaleData {
    ScaleData { timestamp_ms: 0, weight_cg, flow_rate_cg_per_s: 0, battery_percent: 50, timer_running: false, received_at_ms: 0 }
}

fn named(name: Option<&str>) -> Device {
    Device { name: name.map(|n| n.to_string()), address: BleAddress { addr: [1; 6], addr_type: 1 }, rssi: -60 }
}

#[test]
fn decimal_rendering() {
    assert_eq!(decimal_string(0), "0");
    assert_eq!(decimal_string(1234567), "1234567");
}

#[test]
fn device_name_from_advertisement() {
    let adv = [0x02, 0x01, 0x06, 0x05, 0x09, b'A', b'B', b'C', b'D', 0x00];
    assert_eq!(parse_device_name(&adv), Some("ABCD".to_string()));
    let ends_exactly = [0x05, 0x09, b'A', b'B', b'C', b'D'];
    assert_eq!(parse_device_name(&ends_exactly), Some("ABCD".to_string()));
    let overlong = [0x06, 0x09, b'A', b'B', b'C', b'D'];
    assert_eq!(parse_device_name(&overlong), None);
    let invalid_utf8 = [0x03, 0x09, 0xFF, 0xFE, 0x03, 0x08, b'O', b'K', 0x00];
    assert_eq!(parse_device_name(&invalid_utf8), Some("OK".to_string()));
    assert_eq!(parse_device_name(&[]), None);
}

#[test]
fn device_filter_prefix() {
    let f = DeviceFilter { name_prefix: Some("BOOKOO".to_string()), service_uuid: None };
    assert!(f.accepts_name("BOOKOO_SC"));
    assert!(!f.accepts_name("BOO"));
    let all = DeviceFilter { name_prefix: None, service_uuid: None };
    assert!(all.accepts_name(""));
}

#[test]
fn ble_error_texts() {
    assert_eq!(BleError::ScanFailed("busy".to_string()).message(), "BLE scan failed: busy");
    assert_eq!(BleError::DeviceNotFound.message(), "Device not found");
    let e: ScaleError = BleError::NotConnected.into();
    assert_eq!(e, ScaleError::BleError(BleError::NotConnected));
    assert_eq!(e.message(), "BLE error: Not connected to device");
    assert_eq!(RelayError::GpioError("pin".to_string()).message(), "GPIO error: pin");
}

#[test]
fn bookoo_selection() {
    assert!(is_bookoo_name("BOOKOO_SC_77"));
    assert!(!is_bookoo_name("BOOKOO"));
    assert!(uuid_matches(&HostUuid::Bits128(WEIGHT_CHAR_UUID), &WEIGHT_CHAR_UUID));
    assert!(!uuid_matches(&HostUuid::Bits16(0xFF11), &WEIGHT_CHAR_UUID));
    let d = select_scale_device(vec![named(Some("BOOKOO")), named(None), named(Some("BOOKOO_SC_1"))]).unwrap();
    assert_eq!(d.name.as_deref(), Some("BOOKOO_SC_1"));
    assert_eq!(select_scale_device(vec![named(Some("x"))]).unwrap_err(), ScaleError::ScaleNotFound);
    let svc = find_scale_service(&[
        Service { uuid: Uuid::from_u16(0x1800), start_handle: 1, end_handle: 4 },
        Service { uuid: Uuid::from_u16(0x0FFE), start_handle: 5, end_handle: 9 },
    ])
    .unwrap();
    assert_eq!(svc.start_handle, 5);
    let chars = [
        Characteristic { uuid: Uuid::from_u16(0xFF12), handle: 3, properties: 8 },
        Characteristic { uuid: Uuid::from_u16(0xFF11), handle: 7, properties: 16 },
    ];
    let (w, c) = select_characteristics(&chars).unwrap();
    assert_eq!(w.handle, 7);
    assert_eq!(c.unwrap().handle, 3);
    assert_eq!(select_characteristics(&chars[..1]).unwrap_err(), ScaleError::CharacteristicNotFound);
    assert_eq!(command_bytes(ScaleCommand::Tare), TARE_COMMAND);
    assert_eq!(check_command_ready(false, true), Err(ScaleError::NotConnected));
    assert_eq!(check_command_ready(true, false), Err(ScaleError::CharacteristicNotFound));
    assert_eq!(check_command_ready(true, true), Ok(()));
    assert_eq!(no_data_tick(10), (11, None));
    assert!(matches!(no_data_tick(300).1, Some(ScaleError::BleError(BleError::ConnectionFailed(_)))));
}

#[test]
fn legacy_brew_states() {
    let mut m = BrewStateMachine::new();
    assert_eq!(m.update(&reading(0), TimerState::Idle, 0), None);
    assert_eq!(
        m.update(&reading(100), TimerState::Running, 10),
        Some(BrewStateTransition { from: BrewState::Idle, to: BrewState::Brewing })
    );
    assert_eq!(
        m.update(&reading(3600), TimerState::Idle, 20),
        Some(BrewStateTransition { from: BrewState::Brewing, to: BrewState::BrewSettling })
    );
    assert_eq!(m.get_settling_progress(1020), Some(500));
    assert_eq!(m.update(&reading(3650), TimerState::Idle, 1000), None);
    assert_eq!(
        m.update(&reading(100), TimerState::Idle, 1100),
        Some(BrewStateTransition { from: BrewState::BrewSettling, to: BrewState::Idle })
    );
    m.force_idle();
    assert_eq!(m.get_state(), BrewState::Idle);
    assert_eq!(m.get_settling_progress(5000), None);
}

#[test]
fn settling_times_out() {
    let mut m = BrewStateMachine::new();
    m.update(&reading(0), TimerState::Running, 0);
    m.update(&reading(3600), TimerState::Idle, 100);
    assert_eq!(m.get_settling_progress(5000), Some(1000));
    assert_eq!(
        m.update(&reading(3600), TimerState::Idle, 2101),
        Some(BrewStateTransition { from: BrewState::BrewSettling, to: BrewState::Idle })
    );
}

#[test]
fn relay_bookkeeping() {
    let mut r = RelayState::new();
    assert!(!r.on);
    assert!(r.needs_switch(true));
    r.record_switch(true, 50);
    assert!(!r.needs_switch(true));
    assert_eq!(r.last_command_ms, Some(50));
    r.record_test();
    assert!(!r.on);
}

#[test]
fn brew_statistics() {
    let s = BrewStatistics::default();
    assert_eq!(s.best_delay_ms, 500);
    let s = record_brew(s, 100, true, true, 10);
    assert_eq!(s.total_brews, 1);
    assert_eq!(s.average_overshoot_cg, 100);
    let s = record_brew(s, -50, true, false, 20);
    assert_eq!(s.total_brews, 2);
    assert_eq!(s.total_predictions, 2);
    assert_eq!(s.successful_predictions, 1);
    assert_eq!(s.average_overshoot_cg, 25);
    assert_eq!(s.worst_overshoot_cg, 100);
    assert_eq!(s.last_brew_timestamp_ms, 20);
    let s = record_brew(s, -300, false, false, 30);
    assert_eq!(s.worst_overshoot_cg, -300);
    assert_eq!(s.average_overshoot_cg, (25 * 2 - 300) / 3);
}

#[test]
fn learning_reset_keeps_target() {
    let mut settings = BrewSettings::new_default(5);
    settings.target_weight_cg = 4000;
    settings.overshoot_delay_ms = 900;
    let (fresh, stats) = reset_learning_data(settings, 99);
    assert_eq!(fresh.target_weight_cg, 4000);
    assert_eq!(fresh.overshoot_delay_ms, 500);
    assert_eq!(fresh.created_at_ms, 99);
    assert_eq!(stats, BrewStatistics::default());
}

#[test]
fn wifi_texts() {
    assert_eq!(wifi_status(true, false), "Connected");
    assert_eq!(wifi_status(false, true), "Disconnected");
    assert_eq!(wifi_status(false, false), "Not Provisioned");
    assert_eq!(generate_device_name("Gravel", Some([0, 1, 2, 0xAB, 0xCD, 0x0F])), "Gravel-ABCD0F");
    assert_eq!(generate_device_name("Gravel", None), "Gravel-UNKNOWN");
    assert_eq!(
        provisioning_qr_payload("Gravel-1", Some("abc")),
        r#"{"ver":"v1","name":"Gravel-1","pop":"abc","transport":"ble"}"#
    );
    assert_eq!(provisioning_qr_payload("G", None), r#"{"ver":"v1","name":"G","transport":"ble"}"#);
}

#[test]
fn display_layouts() {
    let mut st = DisplayState::default();
    st.weight_cg = 1235;
    st.flow_rate_cg_per_s = 150;
    st.timer_running = true;
    st.ble_connected = true;
    st.battery_percent = 64;
    let lines = refresh_layout(&st);
    let texts: Vec<&str> = lines.iter().map(|l| l.text.as_str()).collect();
    assert_eq!(texts, vec!["12.4g", "→36g", "Flow: 1.5g/s", "Idle ⏱", "BLE:✓ Bat:64%"]);
    assert_eq!((lines[1].x, lines[1].y), (80, 15));
    st.error = Some("Scale lost".to_string());
    let lines = refresh_layout(&st);
    assert_eq!(lines.len(), 2);
    assert_eq!(lines[1].text, "Scale lost");
    assert_eq!(boot_screen_layout()[0].text, "Gravel Scale");
    assert_eq!(progress_bar_width(500), 54);
    assert_eq!(progress_bar_width(2000), 108);
}

#[test]
fn display_rounds_exact_halves_to_even() {
    let mut st = DisplayState::default();
    st.weight_cg = 1825;
    st.target_weight_cg = 3650;
    st.flow_rate_cg_per_s = 135;
    let lines = refresh_layout(&st);
    assert_eq!(lines[0].text, "18.2g");
    assert_eq!(lines[1].text, "→36g");
    assert_eq!(lines[2].text, "Flow: 1.4g/s");
    st.weight_cg = 1835;
    st.target_weight_cg = 3750;
    let lines = refresh_layout(&st);
    assert_eq!(lines[0].text, "18.4g");
    assert_eq!(lines[1].text, "→38g");
}

#[test]
fn gatt_discovery_decisions() {
    assert_eq!(discovery_step(GattEvent::DiscoveryComplete, false), DiscoveryOutcome::Complete);
    assert_eq!(discovery_step(GattEvent::DiscoveryError(14), false), DiscoveryOutcome::Continue);
    assert_eq!(discovery_step(GattEvent::DiscoveryError(14), true), DiscoveryOutcome::Complete);
    assert_eq!(
        discovery_step(GattEvent::DiscoveryError(7), true),
        DiscoveryOutcome::Failed("Discovery error: 7".to_string())
    );
    let mut d = DiscoveryState::new();
    assert!(d.check_service().is_err());
    assert_eq!(d.on_service(&HostUuid::Bits128(BOOKOO_SERVICE_UUID), 20, 30), Some(GattEvent::ServiceFound(20, 30)));
    assert!(d.check_service().is_ok());
    d.on_characteristic(&HostUuid::Bits128(WEIGHT_CHAR_UUID), 22, 0x10);
    assert_eq!(d.cccd_handle, Some(23));
    assert!(d.check_characteristic().is_ok());
    assert_eq!(cccd_candidates(Some(23), 22), vec![23, 23, 24, 25, 26]);
    assert_eq!(cccd_candidates(None, 40), vec![41, 42, 25, 26]);
    let mut link = LinkState { connected: false, handle: None };
    assert!(on_connection_event(&mut link, &ConnectionEvent::Connect { status: 0, conn_handle: 3 }, 0).is_none());
    assert_eq!(link, LinkState { connected: true, handle: Some(3) });
    let r = on_connection_event(&mut link, &ConnectionEvent::NotifyRx { attr_handle: 22, data: Some(vec![1, 2, 3]) }, 0);
    assert!(r.is_none());
    on_connection_event(&mut link, &ConnectionEvent::Disconnect { conn_handle: 3, reason: 19 }, 0);
    assert_eq!(link, LinkState { connected: false, handle: None });
}

#[test]
fn event_filters() {
    assert!(EventFilter::User.accepts(&SystemEvent::User(UserEvent::TareScale)));
    assert!(!EventFilter::Scale.accepts(&SystemEvent::Time(TimeEvent::Tick)));
}

#[test]
fn learning_info_line() {
    let c = BrewController::new();
    assert_eq!(
        c.get_overshoot_learning_info(),
        "Learning: delay=500ms, ewma=0.0g, confidence=0.0%, brews=0, ready=false"
    );
}

#[test]
fn integration_scanner_setup() {
    let s = default_scanner();
    assert_eq!(s.get_registered_scale_types(), vec!["Bookoo"]);
    assert_eq!(s.scan_timeout_ms, 15000);
    let s = scanner_for_types(&["Bookoo", "Acaia"]);
    assert_eq!(s.get_registered_scale_types(), vec!["Bookoo"]);
    let info = ScaleInfo {
        brand: "Bookoo".to_string(),
        model: "Themis Mini".to_string(),
        version: None,
        capabilities: ScaleCapabilities {
            has_timer: true,
            has_flow_rate: true,
            has_battery_level: true,
            supports_tare: true,
            supports_auto_off: false,
        },
    };
    assert_eq!(scale_info_text(&info), "Bookoo Themis Mini");
}

#[test]
fn wifi_start_steps() {
    assert_eq!(
        wifi_start_step(false, WifiStartEvent::ProvisioningStatus { provisioned: true }),
        WifiStartStep::Done { connected: false, ble_needs_reset: false }
    );
    assert_eq!(wifi_start_step(true, WifiStartEvent::ProvisioningStatus { provisioned: false }), WifiStartStep::StartProvisioning);
    assert_eq!(wifi_start_step(true, WifiStartEvent::ProvisioningStatus { provisioned: true }), WifiStartStep::ConnectStored);
    assert_eq!(
        wifi_start_step(true, WifiStartEvent::AfterProvisioning { netif_up: true }),
        WifiStartStep::Done { connected: true, ble_needs_reset: true }
    );
    assert_eq!(
        wifi_start_step(true, WifiStartEvent::AfterStoredConnect { connect_ok: false, bad_credentials: false, netif_up: false }),
        WifiStartStep::RetryAfter { delay_ms: 5000 }
    );
    assert_eq!(
        wifi_start_step(true, WifiStartEvent::AfterStoredConnect { connect_ok: false, bad_credentials: true, netif_up: false }),
        WifiStartStep::ResetAndRetry
    );
}

#[test]
fn scale_timer_start_starts_brew_from_idle() {
    let mut c = BrewController::new();
    c.handle_input(BrewInput::BleEnabled, 0);
    c.handle_input(BrewInput::BleScanning, 0);
    c.handle_input(BrewInput::ScaleConnected, 0);
    assert_eq!(c.get_system_state(), MachineState::Idle);
    let out = c.handle_input(
        BrewInput::ScaleData(ScaleData {
            timestamp_ms: 1000,
            weight_cg: 0,
            flow_rate_cg_per_s: 0,
            battery_percent: 100,
            timer_running: true,
            received_at_ms: 0,
        }),
        1000,
    );
    assert!(out.contains(&BrewOutput::RelayOn));
    assert!(out.contains(&BrewOutput::BrewingStarted));
    assert_eq!(c.get_system_state(), MachineState::Brewing);
}

#[test]
fn discovery_session_subscribes_after_finding_scale() {
    let mut s = DiscoverySession::new();
    assert_eq!(s.discover_and_subscribe_step(DiscoveryEvent::Begin { conn_handle: Some(3) }), DiscoveryAction::StartServiceDiscovery(3));
    assert_eq!(s.discover_and_subscribe_step(DiscoveryEvent::ServiceDiscoveryStarted { rc: 0, now_ms: 100 }), DiscoveryAction::Wait);
    let svc = HostUuid::Bits128(BOOKOO_SERVICE_UUID);
    assert_eq!(
        s.discover_and_subscribe_step(DiscoveryEvent::Service { uuid: svc, start_handle: 20, end_handle: 40 }),
        DiscoveryAction::Wait
    );
    assert_eq!(
        s.discover_and_subscribe_step(DiscoveryEvent::Gatt(GattEvent::DiscoveryError(14))),
        DiscoveryAction::DiscoverCharacteristics(20)
    );
    let chr = HostUuid::Bits128(WEIGHT_CHAR_UUID);
    s.discover_and_subscribe_step(DiscoveryEvent::Characteristic { uuid: chr, val_handle: 22, properties: 0x10 });
    assert_eq!(
        s.discover_and_subscribe_step(DiscoveryEvent::CharacteristicsDiscovered(Ok(()))),
        DiscoveryAction::Subscribe { char_handle: 22, cccd_handle: Some(23) }
    );
    assert_eq!(s.discover_and_subscribe_step(DiscoveryEvent::SubscribeResult(Ok(()))), DiscoveryAction::Succeeded);
}

#[test]
fn discovery_session_failures() {
    let mut s = DiscoverySession::new();
    assert_eq!(
        s.discover_and_subscribe_step(DiscoveryEvent::Begin { conn_handle: None }),
        DiscoveryAction::Failed { message: "No connection handle available".to_string(), cleanup: false }
    );
    let mut s = DiscoverySession::new();
    s.discover_and_subscribe_step(DiscoveryEvent::Begin { conn_handle: Some(1) });
    s.discover_and_subscribe_step(DiscoveryEvent::ServiceDiscoveryStarted { rc: 0, now_ms: 1000 });
    assert_eq!(s.discover_and_subscribe_step(DiscoveryEvent::Tick { now_ms: 10999 }), DiscoveryAction::Wait);
    assert_eq!(
        s.discover_and_subscribe_step(DiscoveryEvent::Tick { now_ms: 11000 }),
        DiscoveryAction::Failed { message: "Discovery timeout".to_string(), cleanup: true }
    );
    let mut s = DiscoverySession::new();
    s.discover_and_subscribe_step(DiscoveryEvent::Begin { conn_handle: Some(1) });
    s.discover_and_subscribe_step(DiscoveryEvent::ServiceDiscoveryStarted { rc: 0, now_ms: 0 });
    assert_eq!(
        s.discover_and_subscribe_step(DiscoveryEvent::Gatt(GattEvent::DiscoveryComplete)),
        DiscoveryAction::Failed { message: "Bookoo scale service (UUID 0000ffe0-...) not found".to_string(), cleanup: true }
    );
    let mut s = DiscoverySession::new();
    s.discover_and_subscribe_step(DiscoveryEvent::Begin { conn_handle: Some(1) });
    assert_eq!(
        s.discover_and_subscribe_step(DiscoveryEvent::ServiceDiscoveryStarted { rc: -3, now_ms: 0 }),
        DiscoveryAction::Failed { message: "Service discovery initiation failed: -3".to_string(), cleanup: true }
    );
}

#[test]
fn auto_tare_implementations_agree_on_a_cup() {
    let mut machine = BrewController::new();
    machine.handle_input(BrewInput::BleEnabled, 0);
    machine.handle_input(BrewInput::BleScanning, 0);
    machine.handle_input(BrewInput::ScaleConnected, 0);
    let mut alone = AutoTareController::new();
    let weights = [0, 1800, 1810, 1805, 1800, 1802, 1801, 1803];
    let mut tares = 0;
    for (k, w) in weights.iter().enumerate() {
        let now = 100 * k as u64;
        let data = ScaleData {
            timestamp_ms: 0,
            weight_cg: *w,
            flow_rate_cg_per_s: 0,
            battery_percent: 90,
            timer_running: false,
            received_at_ms: now,
        };
        let out = machine.handle_input(BrewInput::ScaleData(data), now);
        let a = alone.should_auto_tare(&data, BrewState::Idle, false, now);
        assert_eq!(out.contains(&BrewOutput::TareScale), a);
        if a {
            tares += 1;
        }
    }
    assert_eq!(tares, 1);
}

#[test]
fn test_specific_scale_types() {
    let scanner = scanner_for_types(&["Bookoo"]);
    let supported = scanner.get_registered_scale_types();
    assert_eq!(supported.len(), 1);
    assert_eq!(supported[0], "Bookoo");
}

#[test]
fn display_rounds_as_the_scales_f32_value() {
    let mut st = DisplayState::default();
    st.weight_cg = 1845;
    st.flow_rate_cg_per_s = 15;
    st.target_weight_cg = 3650;
    let lines = refresh_layout(&st);
    assert_eq!(lines[0].text, "18.5g");
    assert_eq!(lines[1].text, "→36g");
    assert_eq!(lines[2].text, "Flow: 0.2g/s");
    st.weight_cg = 1875;
    st.flow_rate_cg_per_s = -1825;
    let lines = refresh_layout(&st);
    assert_eq!(lines[0].text, "18.8g");
    assert_eq!(lines[2].text, "Flow: -18.2g/s");
}

#[test]
fn restarted_timer_while_settling_starts_new_brew() {
    let mut c = BrewController::new();
    c.handle_input(BrewInput::BleEnabled, 0);
    c.handle_input(BrewInput::BleScanning, 0);
    c.handle_input(BrewInput::ScaleConnected, 0);
    let reading = |ts: u32, running: bool| ScaleData {
        timestamp_ms: ts,
        weight_cg: 100,
        flow_rate_cg_per_s: 0,
        battery_percent: 100,
        timer_running: running,
        received_at_ms: 0,
    };
    c.handle_input(BrewInput::ScaleData(reading(1000, true)), 1000);
    assert_eq!(c.get_system_state(), MachineState::Brewing);
    c.handle_input(BrewInput::ScaleData(reading(1100, false)), 1100);
    assert_eq!(c.get_system_state(), MachineState::Settling);
    let out = c.handle_input(BrewInput::ScaleData(reading(1200, true)), 1200);
    assert!(out.contains(&BrewOutput::RelayOn));
    assert!(out.contains(&BrewOutput::BrewingStarted));
    assert_eq!(c.get_system_state(), MachineState::Brewing);
}

#[test]
fn provisioning_qr_code_is_drawn() {
    let qr = gravel_rs::wifi::provisioning::generate_ascii_qr("{\"ver\":\"v1\",\"name\":\"GRAVEL_A1B2C3\",\"transport\":\"ble\"}")
        .unwrap();
    let lines: Vec<&str> = qr.lines().collect();
    assert!(lines.len() >= 21);
    assert!(lines.iter().all(|l| l.chars().count() == 2 * lines.len()));
    assert!(qr.contains('█'));
    assert!(!qr.contains("GRAVEL"));
    let same = gravel_rs::wifi::provisioning::provisioning_qr_code("GRAVEL_A1B2C3", None).unwrap();
    assert_eq!(same, qr);
}
