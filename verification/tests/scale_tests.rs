use gravel_rs::scales::scanner::{no_attempt_error, retry_step, RetryStep, ScanError as GenericScanError};
use gravel_rs::ble::{BleAddress, Device, HostUuid, Service, Uuid};
use gravel_rs::scales::detectors::{
    create_all_scale_detectors, create_scale_detectors, AcaiaScaleDetector, AnyScaleDetector,
    BookooScaleDetector, GenericScaleDetector,
};
use gravel_rs::scales::event_detection::{ScaleEventDetector, ScaleEventDetectionStrategy, TimerDetectionStrategy};
use gravel_rs::scales::scanner::{AdvancedScaleDetector, ScaleDetector, ScaleScanner, ScanConfig as GenericScanConfig};
use gravel_rs::scales::simple_scanner::{ScaleType, ScanConfig, ScanError, SimpleScaleScanner};
use gravel_rs::system::events::{ScaleButton, ScaleEvent};
use gravel_rs::types::ScaleData;

fn device(name: Option<&str>) -> Device {
    Device {
        name: name.map(|n| n.to_string()),
        address: BleAddress { addr: [0; 6], addr_type: 0 },
        rssi: 0,
    }
}

fn reading(ts: u32, weight_cg: i32, flow: i32) -> ScaleData {
    ScaleData {
        timestamp_ms: ts,
        weight_cg,
        flow_rate_cg_per_s: flow,
        battery_percent: 100,
        timer_running: ts > 0,
        received_at_ms: 0,
    }
}

#[test]
fn test_bookoo_detector_priority() {
    let detector = BookooScaleDetector;
    assert_eq!(detector.get_priority(), 100);
    assert_eq!(detector.get_scale_type_name(), "Bookoo");
}

#[test]
fn test_bookoo_name_detection() {
    let detector = BookooScaleDetector;

    let bookoo_device = device(Some("BOOKOO_SC_001"));
    assert!(detector.can_handle_device(&bookoo_device));

    let bookoo_device2 = device(Some("BOOKOO Mini"));
    assert!(detector.can_handle_device(&bookoo_device2));

    let other_device = device(Some("ACAIA_LUNAR"));
    assert!(!detector.can_handle_device(&other_device));
}

#[test]
fn test_detector_creation() {
    let detectors = create_all_scale_detectors();
    assert!(!detectors.is_empty());

    let specific_detectors = create_scale_detectors(&["Bookoo"]);
    assert_eq!(specific_detectors.len(), 1);
    assert_eq!(specific_detectors[0].get_scale_type_name(), "Bookoo");
}

#[test]
fn test_scale_type_conversion() {
    assert_eq!(ScaleType::Bookoo.as_str(), "Bookoo");
}

#[test]
fn test_scan_config_default() {
    let config = ScanConfig::default();
    assert_eq!(config.scan_timeout_ms, 10000);
    assert_eq!(config.max_retry_attempts, 3);
    assert_eq!(config.preferred_scale_types, vec![ScaleType::Bookoo]);
}

#[test]
fn test_timer_detection() {
    let mut detector = ScaleEventDetector::new();
    let data1 = reading(1000, 0, 0);
    let events = detector.process_data(&data1, 0);
    assert!(events.iter().any(|e| matches!(e, ScaleEvent::TimerStarted { .. })));
}

#[test]
fn test_button_detection() {
    let mut detector = ScaleEventDetector::new();
    let data1 = reading(0, 2000, 0);
    detector.process_data(&data1, 0);
    let data2 = reading(0, 0, 0);
    let events = detector.process_data(&data2, 1100);
    assert!(events.iter().any(|e| matches!(e, ScaleEvent::ButtonPressed(ScaleButton::Tare))));
}

#[test]
fn acaia_and_generic_names() {
    let acaia = AcaiaScaleDetector;
    assert!(acaia.can_handle_device(&device(Some("PYXIS-123"))));
    assert!(acaia.can_handle_device(&device(Some("my ACAIA"))));
    assert!(!acaia.can_handle_device(&device(Some("pyxis"))));
    assert!(!acaia.can_handle_device(&device(None)));
    let generic = GenericScaleDetector;
    assert!(generic.can_handle_device(&device(Some("kitchen scale"))));
    assert!(generic.can_handle_device(&device(Some("Coffee-Gram"))));
    assert!(!generic.can_handle_device(&device(Some("headphones"))));
    assert_eq!(generic.get_priority(), 10);
    assert_eq!(acaia.get_priority(), 90);
}

#[test]
fn service_detection() {
    let bookoo = BookooScaleDetector;
    let s16 = Service { uuid: Uuid::from_u16(0x0FFE), start_handle: 1, end_handle: 5 };
    assert!(bookoo.can_handle_services(&[s16]));
    let other = Service { uuid: Uuid::from_u16(0x180F), start_handle: 1, end_handle: 5 };
    assert!(!bookoo.can_handle_services(&[other]));
    assert!(GenericScaleDetector.can_handle_services(&[other]));
    assert_eq!(bookoo.get_identifying_service_uuids().len(), 4);
}

#[test]
fn bookoo_service_recognised_in_discovery_byte_order() {
    let bookoo = BookooScaleDetector;
    let discovered = Service {
        uuid: Uuid::from_u128_bytes([
            0xfb, 0x34, 0x9b, 0x5f, 0x80, 0x00, 0x00, 0x80, 0x00, 0x10, 0x00, 0x00, 0xe0, 0xff, 0x00, 0x00,
        ]),
        start_handle: 1,
        end_handle: 10,
    };
    assert!(bookoo.can_handle_services(&[discovered]));
    let short = Service { uuid: Uuid::from_u16(0xFFE0), start_handle: 1, end_handle: 10 };
    assert!(bookoo.can_handle_services(&[short]));
}

#[test]
fn create_detectors_skips_unknown_names() {
    let ds = create_scale_detectors(&["Generic", "Unknown", "Acaia"]);
    assert_eq!(ds.len(), 2);
    assert_eq!(ds[0].get_scale_type_name(), "Generic");
    assert_eq!(ds[1].get_scale_type_name(), "Acaia");
}

#[test]
fn scanner_orders_detectors_by_priority() {
    let mut scanner = ScaleScanner::new();
    scanner.register_detector(AnyScaleDetector::Generic(GenericScaleDetector));
    scanner.register_detector(AnyScaleDetector::Bookoo(BookooScaleDetector));
    scanner.register_detector(AnyScaleDetector::Acaia(AcaiaScaleDetector));
    assert_eq!(scanner.get_registered_scale_types(), vec!["Bookoo", "Acaia", "Generic"]);
}

#[test]
fn scanner_configure_puts_preferred_first_in_order() {
    let mut scanner = ScaleScanner::new();
    scanner.register_detector(AnyScaleDetector::Generic(GenericScaleDetector));
    scanner.register_detector(AnyScaleDetector::Bookoo(BookooScaleDetector));
    scanner.register_detector(AnyScaleDetector::Acaia(AcaiaScaleDetector));
    let config = GenericScanConfig {
        scan_timeout_ms: 1234,
        connection_timeout_ms: 99,
        preferred_scale_types: vec!["Bookoo".to_string(), "Acaia".to_string()],
        retry_attempts: 1,
        retry_delay_ms: 0,
    };
    scanner.configure(&config);
    assert_eq!(scanner.scan_timeout_ms, 1234);
    assert_eq!(scanner.connection_timeout_ms, 99);
    assert_eq!(scanner.get_registered_scale_types(), vec!["Bookoo", "Acaia", "Generic"]);
}

#[test]
fn scanner_configure_single_preference() {
    let mut scanner = ScaleScanner::new();
    scanner.register_detector(AnyScaleDetector::Bookoo(BookooScaleDetector));
    scanner.register_detector(AnyScaleDetector::Generic(GenericScaleDetector));
    let config = GenericScanConfig { preferred_scale_types: vec!["Bookoo".to_string()], ..GenericScanConfig::default() };
    scanner.configure(&config);
    assert_eq!(scanner.get_registered_scale_types(), vec!["Bookoo", "Generic"]);
}

#[test]
fn scanner_evaluates_candidates() {
    let mut scanner = ScaleScanner::new();
    scanner.register_detector(AnyScaleDetector::Generic(GenericScaleDetector));
    scanner.register_detector(AnyScaleDetector::Bookoo(BookooScaleDetector));
    let devices = vec![device(Some("Kitchen Scale")), device(None), device(Some("BOOKOO_SC_9"))];
    let cands = scanner.evaluate_device_candidates(devices);
    assert_eq!(cands.len(), 2);
    assert_eq!(cands[0].scale_type, "Bookoo");
    assert_eq!(cands[0].priority, 100);
    assert_eq!(cands[0].detector_index, 0);
    assert_eq!(cands[1].scale_type, "Generic");
    assert_eq!(cands[1].detector_index, 1);
    assert_eq!(cands[1].device.name.as_deref(), Some("Kitchen Scale"));
}

#[test]
fn simple_scanner_ranks_exact_prefix_first() {
    let scanner = SimpleScaleScanner::new();
    let devices = vec![
        device(Some("my BOOKOO")),
        device(Some("Other")),
        device(Some("BOOKOO_SC_2")),
        device(None),
    ];
    let cands = scanner.find_bookoo_candidates(devices);
    assert_eq!(cands.len(), 2);
    assert_eq!(cands[0].confidence, 100);
    assert_eq!(cands[0].device.name.as_deref(), Some("BOOKOO_SC_2"));
    assert_eq!(cands[1].confidence, 90);
    assert_eq!(cands[1].device.name.as_deref(), Some("my BOOKOO"));
}

#[test]
fn scan_error_messages() {
    assert_eq!(ScanError::NoDevicesFound.message(), "No BLE devices found during scan");
    assert_eq!(ScanError::BleError("x".to_string()).message(), "BLE error: x");
    assert_eq!(ScanError::Timeout.message(), "Scan timeout");
}

#[test]
fn event_detector_timer_stop_and_reset() {
    let mut d = ScaleEventDetector::new();
    let e = d.process_data(&reading(1000, 0, 0), 0);
    assert!(matches!(e[0], ScaleEvent::TimerStarted { timestamp_ms: 1000 }));
    assert!(d.is_timer_running());
    let e = d.process_data(&reading(1000, 0, 0), 100);
    assert!(matches!(e[0], ScaleEvent::TimerStopped { timestamp_ms: 1000 }));
    assert!(!d.is_timer_running());
    let e = d.process_data(&reading(6000, 0, 0), 200);
    assert!(e.is_empty());
    let e = d.process_data(&reading(500, 0, 0), 300);
    assert!(matches!(e[0], ScaleEvent::TimerReset));
    assert!(matches!(e[1], ScaleEvent::TimerStarted { timestamp_ms: 500 }));
}

#[test]
fn event_detector_objects_and_history() {
    let mut d = ScaleEventDetector::new();
    let e = d.process_data(&reading(0, 600, 0), 0);
    assert!(e.iter().any(|x| matches!(x, ScaleEvent::WeightChanged { .. })));
    let e = d.process_data(&reading(0, 100, 0), 500);
    assert!(!e.iter().any(|x| matches!(x, ScaleEvent::WeightChanged { .. })));
    let e = d.process_data(&reading(0, 100, 0), 1500);
    assert!(e.iter().any(|x| matches!(x, ScaleEvent::WeightChanged { .. })));
    assert_eq!(d.get_recent_history(1000, 1500).len(), 1);
    assert_eq!(d.get_recent_history(1500, 1500).len(), 2);
    assert_eq!(d.get_stable_weight(), Some(600));
    d.reset();
    assert_eq!(d.get_stable_weight(), None);
    assert_eq!(d.get_recent_history(1500, 1500).len(), 0);
}

#[test]
fn timer_strategy_keeps_only_timer_events() {
    let mut s = TimerDetectionStrategy::new();
    let e = s.process_data(&reading(1000, 600, 0), 0);
    assert_eq!(e.len(), 1);
    assert!(matches!(e[0], ScaleEvent::TimerStarted { .. }));
}

#[test]
fn uuid_matching() {
    assert!(Uuid::from_u16(0xFF11).matches(&HostUuid::Bits16(0xFF11)));
    assert!(!Uuid::from_u16(0xFF11).matches(&HostUuid::Bits32(0xFF11)));
    let b = [7u8; 16];
    assert!(Uuid::from_u128_bytes(b).matches(&HostUuid::Bits128(b)));
    let mut c = b;
    c[15] = 8;
    assert!(!Uuid::from_u128_bytes(b).matches(&HostUuid::Bits128(c)));
}

#[test]
fn scan_retry_decisions() {
    assert_eq!(retry_step::<GenericScanError>(1, 3, 2000, Ok(())), RetryStep::Connected);
    assert_eq!(retry_step(1, 3, 2000, Err(GenericScanError::NoDevicesFound)), RetryStep::RetryAfter(2000));
    assert_eq!(
        retry_step(3, 3, 2000, Err(GenericScanError::NoCompatibleScales)),
        RetryStep::GiveUp(GenericScanError::NoCompatibleScales)
    );
    assert_eq!(no_attempt_error(0), Some(GenericScanError::Timeout));
    assert_eq!(no_attempt_error(2), None);
}
