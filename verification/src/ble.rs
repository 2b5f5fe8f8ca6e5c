//! Plain data of the generic BLE client: addresses, discovered devices,
//! services, characteristics and UUIDs, the device-name parser of
//! advertisement data, and the client's errors.

use vstd::prelude::*;
use crate::text::{is_prefix, str_starts_with};

verus! {

/// A BLE device address: six bytes and the address type.
#[derive(Debug, Clone, Copy, PartialEq, Eq)]
pub struct BleAddress {
    pub addr: [u8; 6],
    pub addr_type: u8,
}

/// A device found while scanning.
#[derive(Debug, Clone)]
pub struct Device {
    pub name: Option<String>,
    pub address: BleAddress,
    pub rssi: i8,
}

impl Device {
    /// A copy of the device record.
    pub fn duplicate(&self) -> (r: Self)
        ensures
            r == *self,
    {
        let name = match &self.name {
            Some(n) => Some(n.clone()),
            None => None,
        };
        Device { name, address: self.address, rssi: self.rssi }
    }
}

/// A GATT service and its handle range.
#[derive(Debug, Clone, Copy, PartialEq, Eq)]
pub struct Service {
    pub uuid: Uuid,
    pub start_handle: u16,
    pub end_handle: u16,
}

/// A GATT characteristic: its UUID, value handle and property bits.
#[derive(Debug, Clone, Copy, PartialEq, Eq)]
pub struct Characteristic {
    pub uuid: Uuid,
    pub handle: u16,
    pub properties: u8,
}

/// A 16-bit or 128-bit UUID.
#[derive(Debug, Clone, Copy, PartialEq, Eq)]
pub enum Uuid {
    Uuid16(u16),
    Uuid128([u8; 16]),
}

/// A UUID as the host stack reports it, tagged with its width.
#[derive(Debug, Clone, Copy, PartialEq, Eq)]
pub enum HostUuid {
    Bits16(u16),
    Bits32(u32),
    Bits128([u8; 16]),
}

/// A UUID matches a reported one of the same width and the same value.
pub open spec fn uuid_matches(u: Uuid, h: HostUuid) -> bool {
    match (u, h) {
        (Uuid::Uuid16(a), HostUuid::Bits16(b)) => a == b,
        (Uuid::Uuid128(a), HostUuid::Bits128(b)) => a@ == b@,
        _ => false,
    }
}

/// Whether two 16-byte values are equal, byte by byte.
pub fn bytes16_equal(a: &[u8; 16], b: &[u8; 16]) -> (r: bool)
    ensures
        r == (a@ == b@),
{
    let mut i: usize = 0;
    while i < 16
        invariant
            i <= 16,
            forall|j: int| 0 <= j < i ==> a@[j] == b@[j],
        decreases 16 - i,
    {
        if a[i] != b[i] {
            proof {
                assert(a@[i as int] != b@[i as int]);
            }
            return false;
        }
        i = i + 1;
    }
    proof {
        assert(a@ =~= b@);
    }
    true
}

impl Uuid {
    /// The 16-bit UUID `uuid`.
    pub fn from_u16(uuid: u16) -> (r: Self)
        ensures
            r == Uuid::Uuid16(uuid),
    {
        Uuid::Uuid16(uuid)
    }

    /// The 128-bit UUID with the given bytes.
    pub fn from_u128_bytes(bytes: [u8; 16]) -> (r: Self)
        ensures
            r == Uuid::Uuid128(bytes),
    {
        Uuid::Uuid128(bytes)
    }

    /// Whether this UUID is the one the host stack reported.
    pub fn matches(&self, host: &HostUuid) -> (r: bool)
        ensures
            r == uuid_matches(*self, *host),
    {
        match (self, host) {
            (Uuid::Uuid16(a), HostUuid::Bits16(b)) => *a == *b,
            (Uuid::Uuid128(a), HostUuid::Bits128(b)) => bytes16_equal(a, b),
            _ => false,
        }
    }
}

/// A connection handle.
#[derive(Debug, Clone, Copy, PartialEq, Eq)]
pub struct Connection {
    pub handle: u16,
}

/// What a scan keeps: devices whose name begins with `name_prefix`, when set.
#[derive(Debug, Clone)]
pub struct DeviceFilter {
    pub name_prefix: Option<String>,
    pub service_uuid: Option<Uuid>,
}

impl DeviceFilter {
    /// Whether a device advertising `name` passes the filter.
    pub fn accepts_name(&self, name: &str) -> (r: bool)
        ensures
            r == match self.name_prefix {
                Some(p) => is_prefix(p@, name@),
                None => true,
            },
    {
        match &self.name_prefix {
            Some(p) => str_starts_with(name, p.as_str()),
            None => true,
        }
    }
}

/// Errors of the BLE client.
#[derive(Debug, Clone, PartialEq, Eq)]
pub enum BleError {
    InitializationFailed(String),
    ScanFailed(String),
    ConnectionFailed(String),
    DiscoveryFailed(String),
    SubscriptionFailed(String),
    NotConnected,
    DeviceNotFound,
}

/// The text of a BLE error.
pub open spec fn ble_error_text(e: BleError) -> Seq<char> {
    match e {
        BleError::InitializationFailed(m) => "BLE initialization failed: "@ + m@,
        BleError::ScanFailed(m) => "BLE scan failed: "@ + m@,
        BleError::ConnectionFailed(m) => "BLE connection failed: "@ + m@,
        BleError::DiscoveryFailed(m) => "BLE discovery failed: "@ + m@,
        BleError::SubscriptionFailed(m) => "BLE subscription failed: "@ + m@,
        BleError::NotConnected => "Not connected to device"@,
        BleError::DeviceNotFound => "Device not found"@,
    }
}

impl BleError {
    /// The human-readable text of the error.
    pub fn message(&self) -> (r: String)
        ensures
            r@ == ble_error_text(*self),
    {
        match self {
            BleError::InitializationFailed(m) => {
                String::from_str("BLE initialization failed: ").concat(m.as_str())
            },
            BleError::ScanFailed(m) => String::from_str("BLE scan failed: ").concat(m.as_str()),
            BleError::ConnectionFailed(m) => {
                String::from_str("BLE connection failed: ").concat(m.as_str())
            },
            BleError::DiscoveryFailed(m) => {
                String::from_str("BLE discovery failed: ").concat(m.as_str())
            },
            BleError::SubscriptionFailed(m) => {
                String::from_str("BLE subscription failed: ").concat(m.as_str())
            },
            BleError::NotConnected => String::from_str("Not connected to device"),
            BleError::DeviceNotFound => String::from_str("Device not found"),
        }
    }
}

/// AD type of a complete local name.
pub const AD_TYPE_COMPLETE_NAME: u8 = 0x09;
/// AD type of a shortened local name.
pub const AD_TYPE_SHORT_NAME: u8 = 0x08;

/// What UTF-8 decoding makes of `bytes`: the characters, or nothing where the
/// bytes are not valid UTF-8.
pub uninterp spec fn utf8_text(bytes: Seq<u8>) -> Option<Seq<char>>;

/// Bytes below 0x80 (ASCII).
pub open spec fn all_ascii(bytes: Seq<u8>) -> bool {
    forall|i: int| 0 <= i < bytes.len() ==> bytes[i] < 128
}

/// The characters of ASCII bytes.
pub open spec fn ascii_chars(bytes: Seq<u8>) -> Seq<char> {
    Seq::new(bytes.len(), |i: int| bytes[i] as char)
}

/// `std::str::from_utf8`, with the text copied into a `String`.
///
/// Claims that the result is the named decoding of the bytes, and that ASCII
/// bytes decode to the same characters (a fact the documentation of UTF-8 in
/// `std` states).
#[verifier::external_body]
fn decode_utf8(bytes: &[u8]) -> (r: Option<String>)
    ensures
        match r {
            Some(s) => utf8_text(bytes@) == Some(s@),
            None => utf8_text(bytes@) is None,
        },
        all_ascii(bytes@) ==> (r is Some && r->0@ == ascii_chars(bytes@)),
{
    match std::str::from_utf8(bytes) {
        Ok(s) => Some(s.to_string()),
        Err(_) => None,
    }
}

/// The local name found by walking the AD structures of `d` from `off`: the
/// first complete or shortened name whose bytes decode as UTF-8. The walk stops
/// at a zero length, or at a structure that reaches the end of the data.
pub open spec fn name_from(d: Seq<u8>, off: int) -> Option<Seq<char>>
    decreases d.len() - off,
{
    if off < 0 || off + 1 >= d.len() {
        None
    } else {
        let len = d[off] as int;
        if len == 0 || off + len >= d.len() {
            None
        } else {
            let ty = d[off + 1];
            let text = utf8_text(d.subrange(off + 2, off + 1 + len));
            if (ty == AD_TYPE_COMPLETE_NAME || ty == AD_TYPE_SHORT_NAME) && text is Some {
                text
            } else {
                name_from(d, off + 1 + len)
            }
        }
    }
}

/// Where the bytes of the first complete or shortened name lie, walking the
/// AD structures of `d` from `off` as `name_from` does.
pub open spec fn first_name_slot(d: Seq<u8>, off: int) -> Option<(int, int)>
    decreases d.len() - off,
{
    if off < 0 || off + 1 >= d.len() {
        None
    } else {
        let len = d[off] as int;
        if len == 0 || off + len >= d.len() {
            None
        } else {
            let ty = d[off + 1];
            if ty == AD_TYPE_COMPLETE_NAME || ty == AD_TYPE_SHORT_NAME {
                Some((off + 2, off + 1 + len))
            } else {
                first_name_slot(d, off + 1 + len)
            }
        }
    }
}

/// The first name of the advertisement data when its bytes are ASCII: those
/// bytes as characters.
pub open spec fn ascii_first_name(d: Seq<u8>) -> Option<Seq<char>> {
    match first_name_slot(d, 0) {
        Some((a, b)) => if all_ascii(d.subrange(a, b)) {
            Some(ascii_chars(d.subrange(a, b)))
        } else {
            None
        },
        None => None,
    }
}

/// The device name carried by advertisement data, if any. A first name in
/// ASCII is returned as it stands.
pub fn parse_device_name(adv_data: &[u8]) -> (r: Option<String>)
    ensures
        match r {
            Some(s) => name_from(adv_data@, 0) == Some(s@),
            None => name_from(adv_data@, 0) is None,
        },
        ascii_first_name(adv_data@) matches Some(t) ==> r is Some && r->0@ == t,
{
    let n = adv_data.len();
    let mut offset: usize = 0;
    while offset < n
        invariant
            n == adv_data@.len(),
            name_from(adv_data@, 0) == name_from(adv_data@, offset as int),
            ascii_first_name(adv_data@) is Some ==> first_name_slot(adv_data@, 0) == first_name_slot(
                adv_data@,
                offset as int,
            ),
        ensures
            name_from(adv_data@, 0) is None,
            ascii_first_name(adv_data@) is None,
        decreases n - offset,
    {
        if offset + 1 >= n {
            break;
        }
        let length = adv_data[offset] as usize;
        if length == 0 || length >= n - offset {
            break;
        }
        let ad_type = adv_data[offset + 1];
        if ad_type == AD_TYPE_COMPLETE_NAME || ad_type == AD_TYPE_SHORT_NAME {
            let name_data = &adv_data[offset + 2..offset + 1 + length];
            let decoded = decode_utf8(name_data);
            if let Some(name) = decoded {
                return Some(name);
            }
        }
        offset = offset + 1 + length;
    }
    None
}

/// Extra time a scan waits beyond its requested duration.
pub const SCAN_GRACE_MS: u64 = 1000;
/// Interval at which a scan checks for results.
pub const SCAN_POLL_MS: u64 = 100;

/// Whether a scan stops waiting: the host reported completion, a device was
/// found when only the first one is wanted, or the duration plus a second of
/// grace has passed.
pub fn scan_wait_over(scan_complete: bool, devices_found: usize, return_first: bool, elapsed_ms: u64, duration_ms: u32) -> (r: bool)
    ensures
        r == (scan_complete || (return_first && devices_found > 0) || elapsed_ms > duration_ms + SCAN_GRACE_MS),
{
    let timeout: u64 = duration_ms as u64 + SCAN_GRACE_MS;
    scan_complete || (return_first && devices_found > 0) || elapsed_ms > timeout
}

} // verus!
