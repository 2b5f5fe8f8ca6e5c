//! Wire protocol of the Bookoo Themis Mini scale.

use vstd::prelude::*;
use crate::types::ScaleData;

verus! {

pub const BLE_SERVICE_UUID: &'static str = "0000ffe0-0000-1000-8000-00805f9b34fb";
pub const WEIGHT_CHAR_UUID: &'static str = "0000ff11-0000-1000-8000-00805f9b34fb";
pub const COMMAND_CHAR_UUID: &'static str = "0000ff12-0000-1000-8000-00805f9b34fb";

/// 16-bit form of the weight characteristic UUID.
pub const WEIGHT_CHAR_UUID_16: u16 = 0xFF11;
/// 16-bit form of the command characteristic UUID.
pub const COMMAND_CHAR_UUID_16: u16 = 0xFF12;

pub const TARE_COMMAND: [u8; 6] = [0x03, 0x0A, 0x01, 0x00, 0x00, 0x08];
pub const START_TIMER_COMMAND: [u8; 6] = [0x03, 0x0A, 0x04, 0x00, 0x00, 0x0A];
pub const STOP_TIMER_COMMAND: [u8; 6] = [0x03, 0x0A, 0x05, 0x00, 0x00, 0x0D];
pub const RESET_TIMER_COMMAND: [u8; 6] = [0x03, 0x0A, 0x06, 0x00, 0x00, 0x0C];

/// Length of a weight notification frame.
pub const SCALE_FRAME_LEN: usize = 20;
/// ASCII '+', the sign byte of a non-negative value.
pub const SIGN_PLUS: u8 = 0x2B;

/// XOR of all bytes of `s`, folded from the left.
pub open spec fn xor_fold(s: Seq<u8>) -> u8
    decreases s.len(),
{
    if s.len() == 0 {
        0
    } else {
        xor_fold(s.drop_last()) ^ s.last()
    }
}

/// A frame carries a valid checksum when it has a payload and a trailing byte
/// equal to the XOR of the payload.
pub open spec fn checksum_valid(s: Seq<u8>) -> bool {
    s.len() >= 2 && xor_fold(s.drop_last()) == s.last()
}

/// Big-endian value of three bytes.
pub open spec fn be24(b0: u8, b1: u8, b2: u8) -> int {
    b0 as int * 65536 + b1 as int * 256 + b2 as int
}

/// Big-endian value of two bytes.
pub open spec fn be16(b0: u8, b1: u8) -> int {
    b0 as int * 256 + b1 as int
}

/// Sign of a value given its sign byte: '+' is positive, anything else negative.
pub open spec fn sign_of(b: u8) -> int {
    if b == SIGN_PLUS { 1 } else { -1 }
}

/// The frame structure that `parse_scale_data` accepts.
pub open spec fn frame_well_formed(s: Seq<u8>) -> bool {
    &&& s.len() == SCALE_FRAME_LEN
    &&& s[0] == 0x03
    &&& s[1] == 0x0B
    &&& checksum_valid(s)
}

/// What a well-formed frame decodes to.
pub open spec fn decode_frame(s: Seq<u8>, now_ms: u64) -> ScaleData
    recommends s.len() == SCALE_FRAME_LEN,
{
    let ts = be24(s[2], s[3], s[4]);
    ScaleData {
        timestamp_ms: ts as u32,
        weight_cg: (sign_of(s[6]) * be24(s[7], s[8], s[9])) as i32,
        flow_rate_cg_per_s: (sign_of(s[10]) * be16(s[11], s[12])) as i32,
        battery_percent: s[13],
        timer_running: ts > 0,
        received_at_ms: now_ms,
    }
}

pub open spec fn spec_parse_scale_data(s: Seq<u8>, now_ms: u64) -> Option<ScaleData> {
    if frame_well_formed(s) {
        Some(decode_frame(s, now_ms))
    } else {
        None
    }
}

proof fn lemma_xor_fold_step(s: Seq<u8>, i: int)
    requires
        0 <= i < s.len(),
    ensures
        xor_fold(s.take(i + 1)) == xor_fold(s.take(i)) ^ s[i],
{
    assert(s.take(i + 1).drop_last() =~= s.take(i));
}

/// XOR checksum of a byte slice.
pub fn calculate_xor_checksum(data: &[u8]) -> (r: u8)
    ensures
        r == xor_fold(data@),
{
    let mut acc: u8 = 0;
    let mut i: usize = 0;
    while i < data.len()
        invariant
            i <= data@.len(),
            acc == xor_fold(data@.take(i as int)),
        decreases data@.len() - i,
    {
        proof {
            lemma_xor_fold_step(data@, i as int);
        }
        acc = acc ^ data[i];
        i = i + 1;
    }
    assert(data@.take(data@.len() as int) =~= data@);
    acc
}

/// Whether the last byte of `data` is the XOR of the bytes before it.
pub fn verify_checksum(data: &[u8]) -> (r: bool)
    ensures
        r == checksum_valid(data@),
{
    if data.len() < 2 {
        return false;
    }
    let payload = &data[0..data.len() - 1];
    let expected_checksum = data[data.len() - 1];
    let calculated_checksum = calculate_xor_checksum(payload);
    assert(payload@ =~= data@.drop_last());
    calculated_checksum == expected_checksum
}

/// Decodes a weight notification of the scale.
///
/// A frame is exactly 20 bytes, starts with `[0x03, 0x0B]` and ends with the
/// XOR checksum of the bytes before it. Bytes 2..5 hold the scale timer in
/// milliseconds (big endian), byte 6 the weight's sign, bytes 7..10 the weight
/// in centigrams, byte 10 the flow's sign, bytes 11..13 the flow in centigrams
/// per second and byte 13 the battery level. The timer counts as running when
/// its value is not zero. Any other input gives `None`.
pub fn parse_scale_data(data: &[u8], now_ms: u64) -> (r: Option<ScaleData>)
    ensures
        r == spec_parse_scale_data(data@, now_ms),
{
    if data.len() != SCALE_FRAME_LEN {
        return None;
    }
    if data[0] != 0x03 || data[1] != 0x0B {
        return None;
    }
    if !verify_checksum(data) {
        return None;
    }
    let timestamp_ms: u32 = (data[2] as u32) * 65536 + (data[3] as u32) * 256 + (data[4] as u32);
    let weight_raw: i32 = (data[7] as i32) * 65536 + (data[8] as i32) * 256 + (data[9] as i32);
    let weight_cg: i32 = if data[6] == SIGN_PLUS { weight_raw } else { -weight_raw };
    let flow_raw: i32 = (data[11] as i32) * 256 + (data[12] as i32);
    let flow_rate_cg_per_s: i32 = if data[10] == SIGN_PLUS { flow_raw } else { -flow_raw };
    let battery_percent = data[13];
    let timer_running = timestamp_ms > 0;
    proof {
        let s = data@;
        assert(timestamp_ms as int == be24(s[2], s[3], s[4]));
        assert(weight_raw as int == be24(s[7], s[8], s[9]));
        assert(weight_cg as int == sign_of(s[6]) * be24(s[7], s[8], s[9]));
        assert(flow_raw as int == be16(s[11], s[12]));
        if s[10] == SIGN_PLUS {
            assert(flow_rate_cg_per_s as int == be16(s[11], s[12]));
        } else {
            assert(flow_rate_cg_per_s as int == -be16(s[11], s[12]));
        }
        assert(flow_rate_cg_per_s as int == sign_of(s[10]) * be16(s[11], s[12]));
    }
    Some(ScaleData {
        timestamp_ms,
        weight_cg,
        flow_rate_cg_per_s,
        battery_percent,
        timer_running,
        received_at_ms: now_ms,
    })
}

/// Appending the XOR checksum of a non-empty payload always yields a frame
/// that passes verification, and changing the checksum byte makes it fail.
pub proof fn law_appended_checksum_verifies(payload: Seq<u8>, other: u8)
    requires
        payload.len() >= 1,
        other != xor_fold(payload),
    ensures
        checksum_valid(payload.push(xor_fold(payload))),
        !checksum_valid(payload.push(other)),
{
    assert(payload.push(xor_fold(payload)).drop_last() =~= payload);
    assert(payload.push(other).drop_last() =~= payload);
}

/// A frame that parses carries the sign-adjusted weight and flow, and its
/// timer runs exactly when its timestamp is non-zero.
pub proof fn law_parsed_timer_follows_timestamp(s: Seq<u8>, now_ms: u64)
    requires
        spec_parse_scale_data(s, now_ms) is Some,
    ensures
        spec_parse_scale_data(s, now_ms)->0.timer_running == (spec_parse_scale_data(s, now_ms)->0.timestamp_ms > 0),
        spec_parse_scale_data(s, now_ms)->0.received_at_ms == now_ms,
{
}

/// A well-formed frame decodes, straight from its bytes: the timer from the
/// big-endian bytes 2..4, the weight from the sign byte 6 ('+' positive) and
/// the big-endian bytes 7..9, the flow from the sign byte 10 and the
/// big-endian bytes 11..12, and the battery from byte 13, all in hundredths.
pub proof fn law_frame_fields_from_bytes(s: Seq<u8>, now_ms: u64)
    requires
        s.len() == 20,
        s[0] == 0x03,
        s[1] == 0x0B,
        xor_fold(s.drop_last()) == s[19],
    ensures
        spec_parse_scale_data(s, now_ms) is Some,
        ({
            let d = spec_parse_scale_data(s, now_ms)->0;
            &&& d.timestamp_ms as int == s[2] as int * 65536 + s[3] as int * 256 + s[4] as int
            &&& d.weight_cg as int == (if s[6] == 0x2B { 1int } else { -1int }) * (s[7] as int * 65536 + s[8] as int
                * 256 + s[9] as int)
            &&& d.flow_rate_cg_per_s as int == (if s[10] == 0x2B { 1int } else { -1int }) * (s[11] as int * 256
                + s[12] as int)
            &&& d.battery_percent == s[13]
            &&& d.received_at_ms == now_ms
        }),
{
    let ts = s[2] as int * 65536 + s[3] as int * 256 + s[4] as int;
    assert(0 <= ts < 0x1_0000_0000);
    let w = s[7] as int * 65536 + s[8] as int * 256 + s[9] as int;
    assert(0 <= w < 0x100_0000);
    let f = s[11] as int * 256 + s[12] as int;
    assert(0 <= f < 0x1_0000);
    assert(be24(s[2], s[3], s[4]) == ts);
    assert(be24(s[7], s[8], s[9]) == w);
    assert(be16(s[11], s[12]) == f);
    let sw: int = if s[6] == 0x2B { 1int } else { -1int };
    let sf: int = if s[10] == 0x2B { 1int } else { -1int };
    assert(sign_of(s[6]) == sw && sign_of(s[10]) == sf);
    assert(-0x100_0000 < sw * w < 0x100_0000) by (nonlinear_arith)
        requires
            sw == 1 || sw == -1,
            0 <= w < 0x100_0000,
    ;
    assert(-0x1_0000 < sf * f < 0x1_0000) by (nonlinear_arith)
        requires
            sf == 1 || sf == -1,
            0 <= f < 0x1_0000,
    ;
    let d = decode_frame(s, now_ms);
    assert(d.timestamp_ms as int == ts);
    assert(d.weight_cg as int == sw * w);
    assert(d.flow_rate_cg_per_s as int == sf * f);
}

} // verus!
