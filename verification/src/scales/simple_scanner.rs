//! The Bookoo-focused scanner: which discovered devices are Bookoo scales,
//! and how confident the match is.

use vstd::prelude::*;
use crate::ble::Device;
use crate::text::{contains_seq, is_prefix, str_contains, str_starts_with};

verus! {

/// Errors of scale scanning.
#[derive(Debug, Clone, PartialEq, Eq)]
pub enum ScanError {
    BleError(String),
    NoDevicesFound,
    NoCompatibleScales,
    ConnectionFailed(String),
    Timeout,
}

/// The text of a scan error.
pub open spec fn scan_error_text(e: ScanError) -> Seq<char> {
    match e {
        ScanError::BleError(m) => "BLE error: "@ + m@,
        ScanError::NoDevicesFound => "No BLE devices found during scan"@,
        ScanError::NoCompatibleScales => "No compatible scales detected"@,
        ScanError::ConnectionFailed(m) => "Connection failed: "@ + m@,
        ScanError::Timeout => "Scan timeout"@,
    }
}

impl ScanError {
    /// The human-readable text of the error.
    pub fn message(&self) -> (r: String)
        ensures
            r@ == scan_error_text(*self),
    {
        match self {
            ScanError::BleError(m) => String::from_str("BLE error: ").concat(m.as_str()),
            ScanError::NoDevicesFound => String::from_str("No BLE devices found during scan"),
            ScanError::NoCompatibleScales => String::from_str("No compatible scales detected"),
            ScanError::ConnectionFailed(m) => {
                String::from_str("Connection failed: ").concat(m.as_str())
            },
            ScanError::Timeout => String::from_str("Scan timeout"),
        }
    }
}

/// Scale types the scanner can detect.
#[derive(Debug, Clone, Copy, PartialEq, Eq, Structural)]
pub enum ScaleType {
    Bookoo,
}

impl ScaleType {
    /// The name of the scale type.
    pub fn as_str(&self) -> (r: &'static str)
        ensures
            r@ == "Bookoo"@,
    {
        match self {
            ScaleType::Bookoo => "Bookoo",
        }
    }
}

/// A discovered device that may be a scale of `scale_type`, with a confidence
/// from 0 to 100.
#[derive(Debug, Clone)]
pub struct ScaleCandidate {
    pub device: Device,
    pub scale_type: ScaleType,
    pub confidence: u8,
}

/// Confidence that a device named `n` is a Bookoo scale: 100 for the exact
/// `BOOKOO_SC` prefix, 90 when the name merely contains `BOOKOO`, none
/// otherwise.
pub open spec fn bookoo_confidence(n: Seq<char>) -> Option<u8> {
    if is_prefix("BOOKOO_SC"@, n) {
        Some(100u8)
    } else if contains_seq(n, "BOOKOO"@) {
        Some(90u8)
    } else {
        None
    }
}

/// Confidence for a device: none when it has no name.
pub open spec fn device_confidence(d: Device) -> Option<u8> {
    match d.name {
        Some(n) => bookoo_confidence(n@),
        None => None,
    }
}

/// The devices of `devs` with confidence `c`, as candidates, in order.
pub open spec fn candidates_at(devs: Seq<Device>, c: u8) -> Seq<ScaleCandidate>
    decreases devs.len(),
{
    if devs.len() == 0 {
        Seq::empty()
    } else {
        candidates_at(devs.drop_last(), c) + if device_confidence(devs.last()) == Some(c) {
            seq![ScaleCandidate { device: devs.last(), scale_type: ScaleType::Bookoo, confidence: c }]
        } else {
            Seq::empty()
        }
    }
}

/// Scan settings of the Bookoo scanner.
#[derive(Debug, Clone)]
pub struct ScanConfig {
    pub scan_timeout_ms: u32,
    pub max_retry_attempts: u32,
    pub retry_delay_ms: u64,
    pub preferred_scale_types: Vec<ScaleType>,
}

impl Default for ScanConfig {
    /// Ten-second scans, three attempts two seconds apart, Bookoo preferred.
    fn default() -> (r: Self)
        ensures
            r.scan_timeout_ms == 10000,
            r.max_retry_attempts == 3,
            r.retry_delay_ms == 2000,
            r.preferred_scale_types@ == seq![ScaleType::Bookoo],
    {
        let mut prefs: Vec<ScaleType> = Vec::new();
        prefs.push(ScaleType::Bookoo);
        proof {
            assert(prefs@ =~= seq![ScaleType::Bookoo]);
        }
        ScanConfig {
            scan_timeout_ms: 10000,
            max_retry_attempts: 3,
            retry_delay_ms: 2000,
            preferred_scale_types: prefs,
        }
    }
}

/// Scan timing of the Bookoo scanner.
pub struct SimpleScaleScanner {
    pub scan_timeout_ms: u32,
}

impl SimpleScaleScanner {
    /// A scanner with ten-second scans.
    pub fn new() -> (r: Self)
        ensures
            r.scan_timeout_ms == 10000,
    {
        SimpleScaleScanner { scan_timeout_ms: 10000 }
    }

    /// Sets the scan timeout.
    pub fn set_scan_timeout(&mut self, timeout_ms: u32)
        ensures
            final(self).scan_timeout_ms == timeout_ms,
    {
        self.scan_timeout_ms = timeout_ms;
    }

    /// The scale types this scanner supports.
    pub fn get_supported_scale_types(&self) -> (r: Vec<ScaleType>)
        ensures
            r@ == seq![ScaleType::Bookoo],
    {
        let mut v: Vec<ScaleType> = Vec::new();
        v.push(ScaleType::Bookoo);
        proof {
            assert(v@ =~= seq![ScaleType::Bookoo]);
        }
        v
    }

    /// The Bookoo candidates among `devices`: exact-prefix matches first,
    /// then name matches, each group in discovery order.
    pub fn find_bookoo_candidates(&self, devices: Vec<Device>) -> (r: Vec<ScaleCandidate>)
        ensures
            r@ == candidates_at(devices@, 100) + candidates_at(devices@, 90),
    {
        let mut high: Vec<ScaleCandidate> = Vec::new();
        let mut low: Vec<ScaleCandidate> = Vec::new();
        let mut i: usize = 0;
        while i < devices.len()
            invariant
                i <= devices@.len(),
                high@ == candidates_at(devices@.take(i as int), 100),
                low@ == candidates_at(devices@.take(i as int), 90),
            decreases devices@.len() - i,
        {
            proof {
                assert(devices@.take(i as int + 1).drop_last() =~= devices@.take(i as int));
            }
            let device = &devices[i];
            match &device.name {
                Some(name) => {
                    if str_starts_with(name.as_str(), "BOOKOO_SC") {
                        high.push(
                            ScaleCandidate {
                                device: device.duplicate(),
                                scale_type: ScaleType::Bookoo,
                                confidence: 100,
                            },
                        );
                    } else if str_contains(name.as_str(), "BOOKOO") {
                        low.push(
                            ScaleCandidate {
                                device: device.duplicate(),
                                scale_type: ScaleType::Bookoo,
                                confidence: 90,
                            },
                        );
                    }
                },
                None => {},
            }
            proof {
                assert(high@ =~= candidates_at(devices@.take(i as int + 1), 100));
                assert(low@ =~= candidates_at(devices@.take(i as int + 1), 90));
            }
            i = i + 1;
        }
        proof {
            assert(devices@.take(devices@.len() as int) =~= devices@);
        }
        high.append(&mut low);
        high
    }
}

} // verus!
