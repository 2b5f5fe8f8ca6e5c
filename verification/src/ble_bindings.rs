//! Plain data and decisions of the scale's dedicated BLE client: the Bookoo
//! UUIDs in the host stack's byte order, matching a reported UUID, and
//! recognising the scale among discovered devices.

use vstd::prelude::*;
use crate::ble::{bytes16_equal, HostUuid};
use crate::protocol::{parse_scale_data, spec_parse_scale_data};
use crate::text::{decimal, is_prefix, push_decimal, push_signed_decimal, signed_decimal, str_starts_with};
use crate::types::{elapsed_ms, elapsed_since, ScaleData};

verus! {

/// Service UUID 0000ffe0-0000-1000-8000-00805f9b34fb, least significant byte first.
pub const BOOKOO_SERVICE_UUID: [u8; 16] = [
    0xfb, 0x34, 0x9b, 0x5f, 0x80, 0x00, 0x00, 0x80,
    0x00, 0x10, 0x00, 0x00, 0xe0, 0xff, 0x00, 0x00,
];

/// Weight characteristic UUID 0000ff11-0000-1000-8000-00805f9b34fb.
pub const WEIGHT_CHAR_UUID: [u8; 16] = [
    0xfb, 0x34, 0x9b, 0x5f, 0x80, 0x00, 0x00, 0x80,
    0x00, 0x10, 0x00, 0x00, 0x11, 0xff, 0x00, 0x00,
];

/// Command characteristic UUID 0000ff12-0000-1000-8000-00805f9b34fb.
pub const COMMAND_CHAR_UUID: [u8; 16] = [
    0xfb, 0x34, 0x9b, 0x5f, 0x80, 0x00, 0x00, 0x80,
    0x00, 0x10, 0x00, 0x00, 0x12, 0xff, 0x00, 0x00,
];

/// Name prefix the scale advertises.
pub const BOOKOO_NAME_PREFIX: &'static str = "BOOKOO_SC";

/// A BLE device address: six bytes and the address type.
#[derive(Debug, Clone, Copy, PartialEq, Eq)]
pub struct BleAddress {
    pub addr: [u8; 6],
    pub addr_type: u8,
}

/// A device found while scanning.
#[derive(Debug, Clone)]
pub struct DiscoveredDevice {
    pub name: Option<String>,
    pub address: BleAddress,
    pub rssi: i8,
}

/// A reported UUID equals a 128-bit target when it is 128 bits wide and has
/// the same bytes.
pub open spec fn uuid128_matches(h: HostUuid, target: Seq<u8>) -> bool {
    match h {
        HostUuid::Bits128(b) => b@ == target,
        _ => false,
    }
}

/// Whether the reported UUID is the 128-bit `target`.
pub fn uuid_matches(uuid: &HostUuid, target: &[u8; 16]) -> (r: bool)
    ensures
        r == uuid128_matches(*uuid, target@),
{
    match uuid {
        HostUuid::Bits128(b) => bytes16_equal(b, target),
        _ => false,
    }
}

/// Whether an advertised name is that of a Bookoo scale.
pub fn is_bookoo_name(name: &str) -> (r: bool)
    ensures
        r == is_prefix(BOOKOO_NAME_PREFIX@, name@),
{
    str_starts_with(name, BOOKOO_NAME_PREFIX)
}

/// Status the host stack reports for a discovery that ended incomplete.
pub const GATT_STATUS_INCOMPLETE: u16 = 14;
/// Notify bit of a characteristic's properties.
pub const CHR_PROP_NOTIFY: u8 = 0x10;

/// What service discovery reports to the waiting client.
#[derive(Debug, Clone, Copy, PartialEq, Eq, Structural)]
pub enum GattEvent {
    ServiceFound(u16, u16),
    DiscoveryComplete,
    DiscoveryError(u16),
}

/// What the client does after a discovery event.
#[derive(Debug, Clone, PartialEq, Eq)]
pub enum DiscoveryOutcome {
    /// Keep waiting for events.
    Continue,
    /// Discovery is over; go on with the characteristics.
    Complete,
    /// Give up with this message.
    Failed(String),
}

/// The outcome of one discovery event: completion ends the wait; an
/// incomplete discovery ends it only once the scale's service was seen;
/// any other error fails.
pub fn discovery_step(event: GattEvent, weight_service_found: bool) -> (r: DiscoveryOutcome)
    ensures
        event is ServiceFound ==> r == DiscoveryOutcome::Continue,
        event is DiscoveryComplete ==> r == DiscoveryOutcome::Complete,
        event == GattEvent::DiscoveryError(GATT_STATUS_INCOMPLETE) ==> r == (if weight_service_found {
            DiscoveryOutcome::Complete
        } else {
            DiscoveryOutcome::Continue
        }),
        match event {
            GattEvent::DiscoveryError(st) => st != GATT_STATUS_INCOMPLETE ==> (r matches DiscoveryOutcome::Failed(m)
                && m@ == "Discovery error: "@ + decimal(st as nat)),
            _ => true,
        },
{
    match event {
        GattEvent::ServiceFound(_, _) => DiscoveryOutcome::Continue,
        GattEvent::DiscoveryComplete => DiscoveryOutcome::Complete,
        GattEvent::DiscoveryError(status) => {
            if status == GATT_STATUS_INCOMPLETE {
                if weight_service_found {
                    DiscoveryOutcome::Complete
                } else {
                    DiscoveryOutcome::Continue
                }
            } else {
                let mut m = String::from_str("Discovery error: ");
                push_decimal(&mut m, status as u64);
                DiscoveryOutcome::Failed(m)
            }
        },
    }
}

/// What service and characteristic discovery found.
#[derive(Debug, Clone, Copy, PartialEq, Eq, Structural)]
pub struct DiscoveryState {
    pub service_handle: Option<u16>,
    pub weight_service_found: bool,
    pub char_handle: Option<u16>,
    pub cccd_handle: Option<u16>,
    pub weight_char_found: bool,
}

impl DiscoveryState {
    /// Nothing found yet.
    pub fn new() -> (r: Self)
        ensures
            r == (DiscoveryState {
                service_handle: None,
                weight_service_found: false,
                char_handle: None,
                cccd_handle: None,
                weight_char_found: false,
            }),
    {
        DiscoveryState {
            service_handle: None,
            weight_service_found: false,
            char_handle: None,
            cccd_handle: None,
            weight_char_found: false,
        }
    }

    /// A discovered service: the scale's service is remembered and reported.
    pub fn on_service(&mut self, uuid: &HostUuid, start_handle: u16, end_handle: u16) -> (r: Option<GattEvent>)
        ensures
            uuid128_matches(*uuid, BOOKOO_SERVICE_UUID@) ==> *final(self) == (DiscoveryState {
                service_handle: Some(start_handle),
                weight_service_found: true,
                ..*old(self)
            }) && r == Some(GattEvent::ServiceFound(start_handle, end_handle)),
            !uuid128_matches(*uuid, BOOKOO_SERVICE_UUID@) ==> *final(self) == *old(self) && r is None,
    {
        if uuid_matches(uuid, &BOOKOO_SERVICE_UUID) {
            self.service_handle = Some(start_handle);
            self.weight_service_found = true;
            Some(GattEvent::ServiceFound(start_handle, end_handle))
        } else {
            None
        }
    }

    /// A discovered characteristic: the weight characteristic, when it can
    /// notify, is remembered with its configuration descriptor right after
    /// its value handle.
    pub fn on_characteristic(&mut self, uuid: &HostUuid, val_handle: u16, properties: u8)
        requires
            val_handle < u16::MAX,
        ensures
            uuid128_matches(*uuid, WEIGHT_CHAR_UUID@) && properties & CHR_PROP_NOTIFY != 0 ==> *final(self) == (DiscoveryState {
                char_handle: Some(val_handle),
                cccd_handle: Some((val_handle + 1) as u16),
                weight_char_found: true,
                ..*old(self)
            }),
            !(uuid128_matches(*uuid, WEIGHT_CHAR_UUID@) && properties & CHR_PROP_NOTIFY != 0) ==> *final(self) == *old(self),
    {
        if uuid_matches(uuid, &WEIGHT_CHAR_UUID) && properties & CHR_PROP_NOTIFY != 0 {
            self.char_handle = Some(val_handle);
            self.cccd_handle = Some(val_handle + 1);
            self.weight_char_found = true;
        }
    }

    /// After discovery: the scale's service must have been found.
    pub fn check_service(&self) -> (r: Result<(), String>)
        ensures
            self.weight_service_found ==> r is Ok,
            !self.weight_service_found ==> (r matches Err(m) && m@ == "Bookoo scale service (UUID 0000ffe0-...) not found"@),
    {
        if self.weight_service_found {
            Ok(())
        } else {
            Err(String::from_str("Bookoo scale service (UUID 0000ffe0-...) not found"))
        }
    }

    /// After characteristic discovery: the weight characteristic must have
    /// been found.
    pub fn check_characteristic(&self) -> (r: Result<(), String>)
        ensures
            self.weight_char_found ==> r is Ok,
            !self.weight_char_found ==> (r matches Err(m) && m@ == "Weight characteristic (UUID 0000ff11-...) not found"@),
    {
        if self.weight_char_found {
            Ok(())
        } else {
            Err(String::from_str("Weight characteristic (UUID 0000ff11-...) not found"))
        }
    }
}

/// The handles tried, in order, for enabling notifications: the discovered
/// descriptor if any, then the two handles after the value, then 25 and 26.
pub open spec fn cccd_candidate_list(discovered: Option<u16>, char_handle: u16) -> Seq<u16> {
    let tail = seq![(char_handle + 1) as u16, (char_handle + 2) as u16, 25u16, 26u16];
    match discovered {
        Some(h) => seq![h] + tail,
        None => tail,
    }
}

/// The handles to try for enabling notifications.
pub fn cccd_candidates(discovered: Option<u16>, char_handle: u16) -> (r: Vec<u16>)
    requires
        char_handle <= u16::MAX - 2,
    ensures
        r@ == cccd_candidate_list(discovered, char_handle),
{
    let mut v: Vec<u16> = Vec::new();
    match discovered {
        Some(h) => v.push(h),
        None => {},
    }
    v.push(char_handle + 1);
    v.push(char_handle + 2);
    v.push(25);
    v.push(26);
    proof {
        assert(v@ =~= cccd_candidate_list(discovered, char_handle));
    }
    v
}

/// The connection as the client tracks it.
#[derive(Debug, Clone, Copy, PartialEq, Eq, Structural)]
pub struct LinkState {
    pub connected: bool,
    pub handle: Option<u16>,
}

/// A connection event of the host stack.
#[derive(Debug, Clone)]
pub enum ConnectionEvent {
    Connect { status: i32, conn_handle: u16 },
    Disconnect { conn_handle: u16, reason: i32 },
    NotifyRx { attr_handle: u16, data: Option<Vec<u8>> },
    Other,
}

/// A connection event: a successful connect records the handle, a failed
/// one or a disconnect drops the connection; a notification is parsed as a
/// reading (whatever its handle) and handed on when it parses.
pub fn on_connection_event(link: &mut LinkState, event: &ConnectionEvent, now_ms: u64) -> (r: Option<ScaleData>)
    ensures
        match *event {
            ConnectionEvent::Connect { status, conn_handle } => r is None && *final(link) == (if status == 0 {
                LinkState { connected: true, handle: Some(conn_handle) }
            } else {
                LinkState { connected: false, ..*old(link) }
            }),
            _ => true,
        },
        event is Disconnect ==> r is None && *final(link) == (LinkState { connected: false, handle: None }),
        match *event {
            ConnectionEvent::NotifyRx { attr_handle: _, data } => *final(link) == *old(link) && r == match data {
                Some(d) => spec_parse_scale_data(d@, now_ms),
                None => None,
            },
            _ => true,
        },
        event is Other ==> *final(link) == *old(link) && r is None,
{
    match event {
        ConnectionEvent::Connect { status, conn_handle } => {
            if *status == 0 {
                link.handle = Some(*conn_handle);
                link.connected = true;
            } else {
                link.connected = false;
            }
            None
        },
        ConnectionEvent::Disconnect { conn_handle: _, reason: _ } => {
            link.handle = None;
            link.connected = false;
            None
        },
        ConnectionEvent::NotifyRx { attr_handle: _, data } => match data {
            Some(d) => parse_scale_data(d.as_slice(), now_ms),
            None => None,
        },
        ConnectionEvent::Other => None,
    }
}

/// How long service discovery may take before the client gives up.
pub const DISCOVERY_TIMEOUT_MS: u64 = 10000;

/// Where the client stands in discovering and subscribing to the scale.
#[derive(Debug, Clone, Copy, PartialEq, Eq, Structural)]
pub enum DiscoveryPhase {
    /// Nothing asked yet.
    NotStarted,
    /// Service discovery is being started on a connection.
    Starting,
    /// Waiting for the services of the connection.
    AwaitingServices,
    /// Waiting for the characteristics of the scale's service.
    AwaitingCharacteristics,
    /// Waiting for the notifications to be enabled.
    Subscribing,
    /// Subscribed to the weight notifications.
    Subscribed,
    /// Given up.
    Failed,
}

/// One run of discovery and subscription on a connection.
#[derive(Debug, Clone, Copy, PartialEq, Eq, Structural)]
pub struct DiscoverySession {
    pub phase: DiscoveryPhase,
    pub found: DiscoveryState,
    /// When service discovery was started.
    pub started_ms: u64,
}

/// What the host stack and the timer report to a discovery run.
#[derive(Debug)]
pub enum DiscoveryEvent {
    /// A run begins on the current connection, if there is one.
    Begin { conn_handle: Option<u16> },
    /// The host stack answered the request to discover all services.
    ServiceDiscoveryStarted { rc: i32, now_ms: u64 },
    /// A service was discovered.
    Service { uuid: HostUuid, start_handle: u16, end_handle: u16 },
    /// A discovery event reached the waiting client.
    Gatt(GattEvent),
    /// Time passed.
    Tick { now_ms: u64 },
    /// A characteristic of the scale's service was discovered.
    Characteristic { uuid: HostUuid, val_handle: u16, properties: u8 },
    /// Characteristic discovery ended.
    CharacteristicsDiscovered(Result<(), String>),
    /// Enabling the notifications ended.
    SubscribeResult(Result<(), String>),
}

/// What the client must do next.
#[derive(Debug, Clone, PartialEq, Eq)]
pub enum DiscoveryAction {
    /// Ask the host stack to discover all services of this connection.
    StartServiceDiscovery(u16),
    /// Wait for the next event.
    Wait,
    /// Discover the characteristics of the service starting at this handle.
    DiscoverCharacteristics(u16),
    /// Enable notifications of this characteristic, trying the discovered
    /// descriptor first.
    Subscribe { char_handle: u16, cccd_handle: Option<u16> },
    /// The run succeeded.
    Succeeded,
    /// The run failed with this message; the connection is torn down first
    /// when `cleanup` is set.
    Failed { message: String, cleanup: bool },
}

/// An action as the specifications see it.
pub enum DiscoveryActionView {
    StartServiceDiscovery(u16),
    Wait,
    DiscoverCharacteristics(u16),
    Subscribe(u16, Option<u16>),
    Succeeded,
    Failed(Seq<char>, bool),
}

/// The view of an action.
pub open spec fn action_view(a: DiscoveryAction) -> DiscoveryActionView {
    match a {
        DiscoveryAction::StartServiceDiscovery(h) => DiscoveryActionView::StartServiceDiscovery(h),
        DiscoveryAction::Wait => DiscoveryActionView::Wait,
        DiscoveryAction::DiscoverCharacteristics(h) => DiscoveryActionView::DiscoverCharacteristics(h),
        DiscoveryAction::Subscribe { char_handle, cccd_handle } => DiscoveryActionView::Subscribe(char_handle, cccd_handle),
        DiscoveryAction::Succeeded => DiscoveryActionView::Succeeded,
        DiscoveryAction::Failed { message, cleanup } => DiscoveryActionView::Failed(message@, cleanup),
    }
}

/// Nothing found.
pub open spec fn nothing_found() -> DiscoveryState {
    DiscoveryState {
        service_handle: None,
        weight_service_found: false,
        char_handle: None,
        cccd_handle: None,
        weight_char_found: false,
    }
}

/// `s` gives up with `m`.
pub open spec fn fail_with(s: DiscoverySession, m: Seq<char>, cleanup: bool) -> (DiscoverySession, DiscoveryActionView) {
    (DiscoverySession { phase: DiscoveryPhase::Failed, ..s }, DiscoveryActionView::Failed(m, cleanup))
}

/// After services: go on with the characteristics of the scale's service
/// when it was found; otherwise give up and tear the connection down.
pub open spec fn after_services(s: DiscoverySession) -> (DiscoverySession, DiscoveryActionView) {
    if s.found.weight_service_found && s.found.service_handle is Some {
        (
            DiscoverySession { phase: DiscoveryPhase::AwaitingCharacteristics, ..s },
            DiscoveryActionView::DiscoverCharacteristics(s.found.service_handle->0),
        )
    } else {
        fail_with(s, "Bookoo scale service (UUID 0000ffe0-...) not found"@, true)
    }
}

/// One step of discovering the scale and subscribing to its weight:
/// - a run begins on the current connection, with nothing found, or fails
///   when there is none;
/// - a failed request to discover services fails the run, tearing the
///   connection down;
/// - while services arrive, the scale's service is noted; discovery ends on
///   completion, on an incomplete discovery once the service was seen, on any
///   other error (failing), or after ten seconds (failing); failures here tear
///   the connection down;
/// - after services, the characteristics of the scale's service follow;
///   without the service the run fails;
/// - the weight characteristic, once found, is subscribed to; without it, or
///   when characteristic discovery fails, the run fails;
/// - the run succeeds exactly when the subscription does.
/// Events that do not belong to the current phase change nothing.
pub open spec fn discovery_session_step(s: DiscoverySession, ev: DiscoveryEvent) -> (DiscoverySession, DiscoveryActionView) {
    match ev {
        DiscoveryEvent::Begin { conn_handle } => match conn_handle {
            Some(h) => (
                DiscoverySession { phase: DiscoveryPhase::Starting, found: nothing_found(), ..s },
                DiscoveryActionView::StartServiceDiscovery(h),
            ),
            None => fail_with(
                DiscoverySession { found: nothing_found(), ..s },
                "No connection handle available"@,
                false,
            ),
        },
        DiscoveryEvent::ServiceDiscoveryStarted { rc, now_ms } => if s.phase == DiscoveryPhase::Starting {
            if rc == 0 {
                (
                    DiscoverySession { phase: DiscoveryPhase::AwaitingServices, started_ms: now_ms, ..s },
                    DiscoveryActionView::Wait,
                )
            } else {
                fail_with(s, "Service discovery initiation failed: "@ + signed_decimal(rc as int), true)
            }
        } else {
            (s, DiscoveryActionView::Wait)
        },
        DiscoveryEvent::Service { uuid, start_handle, end_handle: _ } => if s.phase == DiscoveryPhase::AwaitingServices
            && uuid128_matches(uuid, BOOKOO_SERVICE_UUID@) {
            (
                DiscoverySession {
                    found: DiscoveryState { service_handle: Some(start_handle), weight_service_found: true, ..s.found },
                    ..s
                },
                DiscoveryActionView::Wait,
            )
        } else {
            (s, DiscoveryActionView::Wait)
        },
        DiscoveryEvent::Gatt(g) => if s.phase == DiscoveryPhase::AwaitingServices {
            match g {
                GattEvent::ServiceFound(_, _) => (s, DiscoveryActionView::Wait),
                GattEvent::DiscoveryComplete => after_services(s),
                GattEvent::DiscoveryError(st) => if st == GATT_STATUS_INCOMPLETE {
                    if s.found.weight_service_found {
                        after_services(s)
                    } else {
                        (s, DiscoveryActionView::Wait)
                    }
                } else {
                    fail_with(s, "Discovery error: "@ + decimal(st as nat), true)
                },
            }
        } else {
            (s, DiscoveryActionView::Wait)
        },
        DiscoveryEvent::Tick { now_ms } => if s.phase == DiscoveryPhase::AwaitingServices && elapsed_ms(
            now_ms,
            s.started_ms,
        ) >= DISCOVERY_TIMEOUT_MS {
            fail_with(s, "Discovery timeout"@, true)
        } else {
            (s, DiscoveryActionView::Wait)
        },
        DiscoveryEvent::Characteristic { uuid, val_handle, properties } => if s.phase
            == DiscoveryPhase::AwaitingCharacteristics && uuid128_matches(uuid, WEIGHT_CHAR_UUID@) && properties
            & CHR_PROP_NOTIFY != 0 {
            (
                DiscoverySession {
                    found: DiscoveryState {
                        char_handle: Some(val_handle),
                        cccd_handle: Some((val_handle + 1) as u16),
                        weight_char_found: true,
                        ..s.found
                    },
                    ..s
                },
                DiscoveryActionView::Wait,
            )
        } else {
            (s, DiscoveryActionView::Wait)
        },
        DiscoveryEvent::CharacteristicsDiscovered(res) => if s.phase == DiscoveryPhase::AwaitingCharacteristics {
            match res {
                Err(e) => fail_with(s, e@, false),
                Ok(_) => if s.found.weight_char_found && s.found.char_handle is Some {
                    (
                        DiscoverySession { phase: DiscoveryPhase::Subscribing, ..s },
                        DiscoveryActionView::Subscribe(s.found.char_handle->0, s.found.cccd_handle),
                    )
                } else {
                    fail_with(s, "Weight characteristic (UUID 0000ff11-...) not found"@, false)
                },
            }
        } else {
            (s, DiscoveryActionView::Wait)
        },
        DiscoveryEvent::SubscribeResult(res) => if s.phase == DiscoveryPhase::Subscribing {
            match res {
                Ok(_) => (DiscoverySession { phase: DiscoveryPhase::Subscribed, ..s }, DiscoveryActionView::Succeeded),
                Err(e) => fail_with(s, e@, false),
            }
        } else {
            (s, DiscoveryActionView::Wait)
        },
    }
}

/// A run that reached the subscription, or succeeded, found the scale's
/// service and its weight characteristic on this connection.
pub open spec fn session_consistent(s: DiscoverySession) -> bool {
    (s.phase == DiscoveryPhase::AwaitingCharacteristics ==> s.found.weight_service_found)
        && (s.phase == DiscoveryPhase::Subscribing || s.phase == DiscoveryPhase::Subscribed ==> s.found.weight_service_found
        && s.found.weight_char_found)
}

impl DiscoverySession {
    /// A run that has not begun.
    pub fn new() -> (r: Self)
        ensures
            r == (DiscoverySession { phase: DiscoveryPhase::NotStarted, found: nothing_found(), started_ms: 0 }),
    {
        DiscoverySession { phase: DiscoveryPhase::NotStarted, found: DiscoveryState::new(), started_ms: 0 }
    }

    /// The failure of the run with `message`.
    fn fail(&mut self, message: String, cleanup: bool) -> (r: DiscoveryAction)
        ensures
            (*final(self), action_view(r)) == fail_with(*old(self), message@, cleanup),
    {
        self.phase = DiscoveryPhase::Failed;
        DiscoveryAction::Failed { message, cleanup }
    }

    fn after_services(&mut self) -> (r: DiscoveryAction)
        ensures
            (*final(self), action_view(r)) == after_services(*old(self)),
    {
        match self.service_ready() {
            Some(h) => {
                self.phase = DiscoveryPhase::AwaitingCharacteristics;
                DiscoveryAction::DiscoverCharacteristics(h)
            },
            None => {
                let m = match self.found.check_service() {
                    Err(m) => m,
                    Ok(()) => String::from_str("Bookoo scale service (UUID 0000ffe0-...) not found"),
                };
                proof {
                    reveal_strlit("Bookoo scale service (UUID 0000ffe0-...) not found");
                }
                self.fail(m, true)
            },
        }
    }

    fn service_ready(&self) -> (r: Option<u16>)
        ensures
            r == (if self.found.weight_service_found && self.found.service_handle is Some {
                Some(self.found.service_handle->0)
            } else {
                None
            }),
    {
        if self.found.weight_service_found {
            self.found.service_handle
        } else {
            None
        }
    }

    /// One step of the run: the event is taken in and the next action
    /// returned (see `discovery_session_step`).
    pub fn discover_and_subscribe_step(&mut self, ev: DiscoveryEvent) -> (r: DiscoveryAction)
        requires
            ev matches DiscoveryEvent::Characteristic { val_handle, .. } ==> val_handle < u16::MAX,
        ensures
            (*final(self), action_view(r)) == discovery_session_step(*old(self), ev),
            session_consistent(*old(self)) ==> session_consistent(*final(self)),
    {
        match ev {
            DiscoveryEvent::Begin { conn_handle } => {
                self.found = DiscoveryState::new();
                match conn_handle {
                    Some(h) => {
                        self.phase = DiscoveryPhase::Starting;
                        DiscoveryAction::StartServiceDiscovery(h)
                    },
                    None => self.fail(String::from_str("No connection handle available"), false),
                }
            },
            DiscoveryEvent::ServiceDiscoveryStarted { rc, now_ms } => {
                if self.phase != DiscoveryPhase::Starting {
                    return DiscoveryAction::Wait;
                }
                if rc == 0 {
                    self.phase = DiscoveryPhase::AwaitingServices;
                    self.started_ms = now_ms;
                    DiscoveryAction::Wait
                } else {
                    let mut m = String::from_str("Service discovery initiation failed: ");
                    push_signed_decimal(&mut m, rc);
                    self.fail(m, true)
                }
            },
            DiscoveryEvent::Service { uuid, start_handle, end_handle } => {
                if self.phase == DiscoveryPhase::AwaitingServices {
                    let _ = self.found.on_service(&uuid, start_handle, end_handle);
                }
                DiscoveryAction::Wait
            },
            DiscoveryEvent::Gatt(g) => {
                if self.phase != DiscoveryPhase::AwaitingServices {
                    return DiscoveryAction::Wait;
                }
                match discovery_step(g, self.found.weight_service_found) {
                    DiscoveryOutcome::Continue => DiscoveryAction::Wait,
                    DiscoveryOutcome::Complete => self.after_services(),
                    DiscoveryOutcome::Failed(m) => self.fail(m, true),
                }
            },
            DiscoveryEvent::Tick { now_ms } => {
                if self.phase == DiscoveryPhase::AwaitingServices && elapsed_since(now_ms, self.started_ms)
                    >= DISCOVERY_TIMEOUT_MS {
                    self.fail(String::from_str("Discovery timeout"), true)
                } else {
                    DiscoveryAction::Wait
                }
            },
            DiscoveryEvent::Characteristic { uuid, val_handle, properties } => {
                if self.phase == DiscoveryPhase::AwaitingCharacteristics {
                    self.found.on_characteristic(&uuid, val_handle, properties);
                }
                DiscoveryAction::Wait
            },
            DiscoveryEvent::CharacteristicsDiscovered(res) => {
                if self.phase != DiscoveryPhase::AwaitingCharacteristics {
                    return DiscoveryAction::Wait;
                }
                match res {
                    Err(e) => self.fail(e, false),
                    Ok(()) => {
                        match self.found.check_characteristic() {
                            Err(m) => self.fail(m, false),
                            Ok(()) => match self.found.char_handle {
                                Some(h) => {
                                    self.phase = DiscoveryPhase::Subscribing;
                                    DiscoveryAction::Subscribe { char_handle: h, cccd_handle: self.found.cccd_handle }
                                },
                                None => self.fail(
                                    String::from_str("Weight characteristic (UUID 0000ff11-...) not found"),
                                    false,
                                ),
                            },
                        }
                    },
                }
            },
            DiscoveryEvent::SubscribeResult(res) => {
                if self.phase != DiscoveryPhase::Subscribing {
                    return DiscoveryAction::Wait;
                }
                match res {
                    Ok(()) => {
                        self.phase = DiscoveryPhase::Subscribed;
                        DiscoveryAction::Succeeded
                    },
                    Err(e) => self.fail(e, false),
                }
            },
        }
    }
}

/// A run succeeds only on a successful subscription, and only after this
/// connection's discovery found the scale's service and its weight
/// characteristic: starting from a run that has not begun, every sequence of
/// steps keeps the run consistent.
pub proof fn law_success_only_after_discovery(s: DiscoverySession, ev: DiscoveryEvent)
    requires
        session_consistent(s),
    ensures
        ({
            let (s2, a) = discovery_session_step(s, ev);
            &&& session_consistent(s2)
            &&& a == DiscoveryActionView::Succeeded ==> s.phase == DiscoveryPhase::Subscribing && (ev matches DiscoveryEvent::SubscribeResult(res) && res is Ok)
                && s2.found.weight_service_found && s2.found.weight_char_found
        }),
{
}

/// A run begins consistent.
pub proof fn lemma_new_session_consistent()
    ensures
        session_consistent(DiscoverySession { phase: DiscoveryPhase::NotStarted, found: nothing_found(), started_ms: 0 }),
{
}


} // verus!
