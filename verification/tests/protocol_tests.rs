use gravel_rs::protocol::{calculate_xor_checksum, parse_scale_data, verify_checksum};

#[test]
fn test_checksum_calculation() {
    let data = [0x03, 0x0A, 0x01, 0x00, 0x00];
    let checksum = calculate_xor_checksum(&data);
    assert_eq!(checksum, 0x08);
}

#[test]
fn test_checksum_verification() {
    let valid_data = [0x03, 0x0A, 0x01, 0x00, 0x00, 0x08];
    assert!(verify_checksum(&valid_data));

    let invalid_data = [0x03, 0x0A, 0x01, 0x00, 0x00, 0x09];
    assert!(!verify_checksum(&invalid_data));
}

fn frame(ts: u32, weight_sign: u8, weight: u32, flow_sign: u8, flow: u16, battery: u8) -> Vec<u8> {
    let mut f = vec![
        0x03,
        0x0B,
        (ts >> 16) as u8,
        (ts >> 8) as u8,
        ts as u8,
        0x00,
        weight_sign,
        (weight >> 16) as u8,
        (weight >> 8) as u8,
        weight as u8,
        flow_sign,
        (flow >> 8) as u8,
        flow as u8,
        battery,
        0,
        0,
        0,
        0,
        0,
    ];
    let c = calculate_xor_checksum(&f);
    f.push(c);
    f
}

#[test]
fn parse_positive_frame() {
    let f = frame(1500, b'+', 3612, b'+', 150, 87);
    let d = parse_scale_data(&f, 42).expect("valid frame");
    assert_eq!(d.timestamp_ms, 1500);
    assert_eq!(d.weight_cg, 3612);
    assert_eq!(d.flow_rate_cg_per_s, 150);
    assert_eq!(d.battery_percent, 87);
    assert!(d.timer_running);
    assert_eq!(d.received_at_ms, 42);
}

#[test]
fn parse_negative_values_and_stopped_timer() {
    let f = frame(0, b'-', 25, b'-', 7, 100);
    let d = parse_scale_data(&f, 0).expect("valid frame");
    assert_eq!(d.weight_cg, -25);
    assert_eq!(d.flow_rate_cg_per_s, -7);
    assert!(!d.timer_running);
}

#[test]
fn parse_rejects_bad_checksum_length_and_header() {
    let mut f = frame(10, b'+', 1, b'+', 1, 50);
    let last = f.len() - 1;
    f[last] ^= 0x01;
    assert!(parse_scale_data(&f, 0).is_none());

    let short = &frame(10, b'+', 1, b'+', 1, 50)[..19];
    assert!(parse_scale_data(short, 0).is_none());

    let mut bad_header = frame(10, b'+', 1, b'+', 1, 50);
    bad_header[1] = 0x0A;
    let last = bad_header.len() - 1;
    bad_header[last] = calculate_xor_checksum(&bad_header[..last]);
    assert!(parse_scale_data(&bad_header, 0).is_none());
}

#[test]
fn checksum_of_empty_and_short() {
    assert_eq!(calculate_xor_checksum(&[]), 0);
    assert!(!verify_checksum(&[0x00]));
    assert!(verify_checksum(&[0x00, 0x00]));
}
