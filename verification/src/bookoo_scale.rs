//! Decisions of the Bookoo scale client: which discovered device is the
//! scale, which service and characteristics to use, which bytes each command
//! sends, and when a silent scale is given up on.

use vstd::prelude::*;
use crate::ble::{BleError, Characteristic, Device, Service, Uuid};
use crate::protocol::{RESET_TIMER_COMMAND, START_TIMER_COMMAND, STOP_TIMER_COMMAND, TARE_COMMAND};
use crate::scales::detectors::uuid_same;
use crate::scales::traits::ScaleCommand;
use crate::text::{is_prefix, str_starts_with};
use crate::ble::ble_error_text;

verus! {

/// Service UUID of the scale in its 16-bit form.
pub const BOOKOO_SERVICE_UUID_16: u16 = 0x0FFE;
/// Weight characteristic in its 16-bit form.
pub const WEIGHT_CHAR_UUID_16: u16 = 0xFF11;
/// Command characteristic in its 16-bit form.
pub const COMMAND_CHAR_UUID_16: u16 = 0xFF12;

/// Service UUID 0000ffe0-0000-1000-8000-00805f9b34fb, least significant byte first.
pub const BOOKOO_SERVICE_UUID_128: [u8; 16] = [
    0xfb, 0x34, 0x9b, 0x5f, 0x80, 0x00, 0x00, 0x80, 0x00, 0x10, 0x00, 0x00, 0xe0, 0xff, 0x00, 0x00,
];
/// Weight characteristic 0000ff11-0000-1000-8000-00805f9b34fb.
pub const WEIGHT_CHAR_UUID_128: [u8; 16] = [
    0xfb, 0x34, 0x9b, 0x5f, 0x80, 0x00, 0x00, 0x80, 0x00, 0x10, 0x00, 0x00, 0x11, 0xff, 0x00, 0x00,
];
/// Command characteristic 0000ff12-0000-1000-8000-00805f9b34fb.
pub const COMMAND_CHAR_UUID_128: [u8; 16] = [
    0xfb, 0x34, 0x9b, 0x5f, 0x80, 0x00, 0x00, 0x80, 0x00, 0x10, 0x00, 0x00, 0x12, 0xff, 0x00, 0x00,
];

/// Polls without data (one every 100 ms) after which the scale is given up
/// on: five minutes.
pub const MAX_NO_DATA_COUNT: u32 = 300;

/// Errors of the scale client.
#[derive(Debug, Clone, PartialEq, Eq)]
pub enum ScaleError {
    BleError(BleError),
    ScaleNotFound,
    ServiceNotFound,
    CharacteristicNotFound,
    NotConnected,
    CommandFailed(String),
}

/// The text of a scale error.
pub open spec fn scale_error_text(e: ScaleError) -> Seq<char> {
    match e {
        ScaleError::BleError(b) => "BLE error: "@ + ble_error_text(b),
        ScaleError::ScaleNotFound => "Bookoo scale not found"@,
        ScaleError::ServiceNotFound => "Scale service not found"@,
        ScaleError::CharacteristicNotFound => "Scale characteristic not found"@,
        ScaleError::NotConnected => "Not connected to scale"@,
        ScaleError::CommandFailed(m) => "Command failed: "@ + m@,
    }
}

impl ScaleError {
    /// The human-readable text of the error.
    pub fn message(&self) -> (r: String)
        ensures
            r@ == scale_error_text(*self),
    {
        match self {
            ScaleError::BleError(b) => {
                let inner = b.message();
                String::from_str("BLE error: ").concat(inner.as_str())
            },
            ScaleError::ScaleNotFound => String::from_str("Bookoo scale not found"),
            ScaleError::ServiceNotFound => String::from_str("Scale service not found"),
            ScaleError::CharacteristicNotFound => String::from_str("Scale characteristic not found"),
            ScaleError::NotConnected => String::from_str("Not connected to scale"),
            ScaleError::CommandFailed(m) => String::from_str("Command failed: ").concat(m.as_str()),
        }
    }
}

impl From<BleError> for ScaleError {
    /// A BLE error wrapped as a scale error.
    fn from(error: BleError) -> (r: Self)
        ensures
            r == ScaleError::BleError(error),
    {
        ScaleError::BleError(error)
    }
}

impl vstd::std_specs::convert::FromSpecImpl<BleError> for ScaleError {
    open spec fn obeys_from_spec() -> bool {
        true
    }

    open spec fn from_spec(v: BleError) -> Self {
        ScaleError::BleError(v)
    }
}

/// A device named with the Bookoo prefix.
pub open spec fn is_scale_device(d: Device) -> bool {
    d.name matches Some(n) && is_prefix("BOOKOO_SC"@, n@)
}

/// The first Bookoo device among the scan results.
pub fn select_scale_device(devices: Vec<Device>) -> (r: Result<Device, ScaleError>)
    ensures
        match r {
            Ok(d) => exists|i: int|
                0 <= i < devices@.len() && devices@[i] == d && is_scale_device(d) && forall|j: int|
                    0 <= j < i ==> !is_scale_device(#[trigger] devices@[j]),
            Err(e) => e == ScaleError::ScaleNotFound && forall|j: int|
                0 <= j < devices@.len() ==> !is_scale_device(#[trigger] devices@[j]),
        },
{
    let mut i: usize = 0;
    while i < devices.len()
        invariant
            i <= devices@.len(),
            forall|j: int| 0 <= j < i ==> !is_scale_device(#[trigger] devices@[j]),
        decreases devices@.len() - i,
    {
        let d = &devices[i];
        let found = match &d.name {
            Some(n) => str_starts_with(n.as_str(), "BOOKOO_SC"),
            None => false,
        };
        if found {
            let r = d.duplicate();
            assert(devices@[i as int] == r);
            return Ok(r);
        }
        i = i + 1;
    }
    Err(ScaleError::ScaleNotFound)
}

/// The scale's service UUIDs, 16-bit first.
pub open spec fn is_scale_service(s: Service) -> bool {
    uuid_same(s.uuid, Uuid::Uuid16(BOOKOO_SERVICE_UUID_16)) || uuid_same(
        s.uuid,
        Uuid::Uuid128(BOOKOO_SERVICE_UUID_128),
    )
}

/// Whether `u` is one of the two forms of a UUID.
fn is_either(u: &Uuid, short: u16, long: &[u8; 16]) -> (r: bool)
    ensures
        r == (uuid_same(*u, Uuid::Uuid16(short)) || uuid_same(*u, Uuid::Uuid128(*long))),
{
    match u {
        Uuid::Uuid16(x) => *x == short,
        Uuid::Uuid128(b) => crate::ble::bytes16_equal(b, long),
    }
}

/// The first service of the scale among the discovered ones.
pub fn find_scale_service(services: &[Service]) -> (r: Result<Service, ScaleError>)
    ensures
        match r {
            Ok(s) => exists|i: int|
                0 <= i < services@.len() && services@[i] == s && is_scale_service(s) && forall|j: int|
                    0 <= j < i ==> !is_scale_service(#[trigger] services@[j]),
            Err(e) => e == ScaleError::ServiceNotFound && forall|j: int|
                0 <= j < services@.len() ==> !is_scale_service(#[trigger] services@[j]),
        },
{
    let mut i: usize = 0;
    while i < services.len()
        invariant
            i <= services@.len(),
            forall|j: int| 0 <= j < i ==> !is_scale_service(#[trigger] services@[j]),
        decreases services@.len() - i,
    {
        let s = services[i];
        if is_either(&s.uuid, BOOKOO_SERVICE_UUID_16, &BOOKOO_SERVICE_UUID_128) {
            return Ok(s);
        }
        i = i + 1;
    }
    Err(ScaleError::ServiceNotFound)
}

/// A weight characteristic, in either UUID form.
pub open spec fn is_weight_char(c: Characteristic) -> bool {
    uuid_same(c.uuid, Uuid::Uuid16(WEIGHT_CHAR_UUID_16)) || uuid_same(
        c.uuid,
        Uuid::Uuid128(WEIGHT_CHAR_UUID_128),
    )
}

/// A command characteristic, in either UUID form (and not a weight one).
pub open spec fn is_command_char(c: Characteristic) -> bool {
    !is_weight_char(c) && (uuid_same(c.uuid, Uuid::Uuid16(COMMAND_CHAR_UUID_16)) || uuid_same(
        c.uuid,
        Uuid::Uuid128(COMMAND_CHAR_UUID_128),
    ))
}

/// The last characteristic of `cs` satisfying `p`, if any.
pub open spec fn last_matching(cs: Seq<Characteristic>, p: spec_fn(Characteristic) -> bool) -> Option<Characteristic>
    decreases cs.len(),
{
    if cs.len() == 0 {
        None
    } else if p(cs.last()) {
        Some(cs.last())
    } else {
        last_matching(cs.drop_last(), p)
    }
}

/// Weight characteristics.
pub open spec fn weight_pred() -> spec_fn(Characteristic) -> bool {
    |c: Characteristic| is_weight_char(c)
}

/// Command characteristics.
pub open spec fn command_pred() -> spec_fn(Characteristic) -> bool {
    |c: Characteristic| is_command_char(c)
}

/// The weight and command characteristics among the discovered ones: the
/// last of each kind is kept; without a weight characteristic the scale
/// cannot be used, without a command one it can, but commands fail.
pub fn select_characteristics(chars: &[Characteristic]) -> (r: Result<(Characteristic, Option<Characteristic>), ScaleError>)
    ensures
        match r {
            Ok((w, c)) => last_matching(chars@, weight_pred()) == Some(w) && last_matching(chars@, command_pred()) == c,
            Err(e) => e == ScaleError::CharacteristicNotFound && last_matching(chars@, weight_pred()) is None,
        },
{
    let mut weight: Option<Characteristic> = None;
    let mut command: Option<Characteristic> = None;
    let mut i: usize = 0;
    while i < chars.len()
        invariant
            i <= chars@.len(),
            weight == last_matching(chars@.take(i as int), weight_pred()),
            command == last_matching(chars@.take(i as int), command_pred()),
        decreases chars@.len() - i,
    {
        let c = chars[i];
        proof {
            assert(chars@.take(i as int + 1).drop_last() =~= chars@.take(i as int));
            assert(chars@.take(i as int + 1).last() == c);
        }
        if is_either(&c.uuid, WEIGHT_CHAR_UUID_16, &WEIGHT_CHAR_UUID_128) {
            weight = Some(c);
        } else if is_either(&c.uuid, COMMAND_CHAR_UUID_16, &COMMAND_CHAR_UUID_128) {
            command = Some(c);
        }
        i = i + 1;
    }
    proof {
        assert(chars@.take(chars@.len() as int) =~= chars@);
    }
    match weight {
        Some(w) => Ok((w, command)),
        None => Err(ScaleError::CharacteristicNotFound),
    }
}

/// The bytes a scale command sends.
pub open spec fn command_frame(cmd: ScaleCommand) -> [u8; 6] {
    match cmd {
        ScaleCommand::Tare => TARE_COMMAND,
        ScaleCommand::StartTimer => START_TIMER_COMMAND,
        ScaleCommand::StopTimer => STOP_TIMER_COMMAND,
        ScaleCommand::ResetTimer => RESET_TIMER_COMMAND,
    }
}

/// The bytes to write for a scale command.
pub fn command_bytes(cmd: ScaleCommand) -> (r: [u8; 6])
    ensures
        r == command_frame(cmd),
{
    match cmd {
        ScaleCommand::Tare => TARE_COMMAND,
        ScaleCommand::StartTimer => START_TIMER_COMMAND,
        ScaleCommand::StopTimer => STOP_TIMER_COMMAND,
        ScaleCommand::ResetTimer => RESET_TIMER_COMMAND,
    }
}

/// Whether a command can be sent: the scale must be connected and offer a
/// command characteristic.
pub fn check_command_ready(connected: bool, has_command_characteristic: bool) -> (r: Result<(), ScaleError>)
    ensures
        !connected ==> r == Err::<(), ScaleError>(ScaleError::NotConnected),
        connected && !has_command_characteristic ==> r == Err::<(), ScaleError>(ScaleError::CharacteristicNotFound),
        connected && has_command_characteristic ==> r is Ok,
{
    if !connected {
        Err(ScaleError::NotConnected)
    } else if !has_command_characteristic {
        Err(ScaleError::CharacteristicNotFound)
    } else {
        Ok(())
    }
}

/// One poll without data: the count grows; past five minutes the scale is
/// given up on with a connection error.
pub fn no_data_tick(count: u32) -> (r: (u32, Option<ScaleError>))
    requires
        count < u32::MAX,
    ensures
        r.0 == count + 1,
        r.0 > MAX_NO_DATA_COUNT ==> (r.1 matches Some(ScaleError::BleError(BleError::ConnectionFailed(m))) && m@ == "No data timeout"@),
        r.0 <= MAX_NO_DATA_COUNT ==> r.1 is None,
{
    let next = count + 1;
    if next > MAX_NO_DATA_COUNT {
        (next, Some(ScaleError::BleError(BleError::ConnectionFailed(String::from_str("No data timeout")))))
    } else {
        (next, None)
    }
}

} // verus!
