//! Detectors of scale brands: each recognises its brand by the advertised
//! device name and by the services the device offers.

use vstd::prelude::*;
use crate::ble::{Device, Service, Uuid};
use crate::scales::scanner::{AdvancedScaleDetector, ScaleDetector};
use crate::text::{
    contains_seq, is_prefix, str_contains, str_equals, str_starts_with, to_uppercase,
    uppercase_text,
};

verus! {

/// Detects Bookoo Themis scales by name and service UUID.
#[derive(Debug, Clone, Copy, PartialEq, Eq)]
pub struct BookooScaleDetector;

/// Detects Acaia scales by name.
#[derive(Debug, Clone, Copy, PartialEq, Eq)]
pub struct AcaiaScaleDetector;

/// Fallback detector for devices whose name suggests a scale.
#[derive(Debug, Clone, Copy, PartialEq, Eq)]
pub struct GenericScaleDetector;

/// One of the available detectors.
#[derive(Debug, Clone, Copy, PartialEq, Eq)]
pub enum AnyScaleDetector {
    Bookoo(BookooScaleDetector),
    Acaia(AcaiaScaleDetector),
    Generic(GenericScaleDetector),
}

/// A Bookoo name begins with `BOOKOO_SC` or contains `BOOKOO`.
pub open spec fn bookoo_name(n: Seq<char>) -> bool {
    is_prefix("BOOKOO_SC"@, n) || contains_seq(n, "BOOKOO"@)
}

/// An Acaia name begins with `ACAIA`, `PYXIS` or `LUNAR`, or contains `ACAIA`.
pub open spec fn acaia_name(n: Seq<char>) -> bool {
    is_prefix("ACAIA"@, n) || contains_seq(n, "ACAIA"@) || is_prefix("PYXIS"@, n) || is_prefix(
        "LUNAR"@,
        n,
    )
}

/// Keywords that suggest a scale.
pub open spec fn scale_keywords() -> Seq<Seq<char>> {
    seq!["SCALE"@, "WEIGHT"@, "COFFEE"@, "BREWING"@, "GRAM"@]
}

/// A generic scale name contains, once upper-cased, one of the keywords.
pub open spec fn generic_name(n: Seq<char>) -> bool {
    exists|i: int| 0 <= i < 5 && contains_seq(uppercase_text(n), #[trigger] scale_keywords()[i])
}

/// Whether detector `d` handles a device with this name.
pub open spec fn name_handled(d: AnyScaleDetector, n: Seq<char>) -> bool {
    match d {
        AnyScaleDetector::Bookoo(_) => bookoo_name(n),
        AnyScaleDetector::Acaia(_) => acaia_name(n),
        AnyScaleDetector::Generic(_) => generic_name(n),
    }
}

/// Whether detector `d` handles `device`: a named device with a matching name.
pub open spec fn detector_handles(d: AnyScaleDetector, device: Device) -> bool {
    match device.name {
        Some(n) => name_handled(d, n@),
        None => false,
    }
}

/// Priority of each detector.
pub open spec fn detector_priority(d: AnyScaleDetector) -> u8 {
    match d {
        AnyScaleDetector::Bookoo(_) => 100,
        AnyScaleDetector::Acaia(_) => 90,
        AnyScaleDetector::Generic(_) => 10,
    }
}

/// Type name of each detector.
pub open spec fn detector_static_name(d: AnyScaleDetector) -> &'static str {
    match d {
        AnyScaleDetector::Bookoo(_) => "Bookoo",
        AnyScaleDetector::Acaia(_) => "Acaia",
        AnyScaleDetector::Generic(_) => "Generic",
    }
}

/// Characters of the type name of each detector.
pub open spec fn detector_type_name(d: AnyScaleDetector) -> Seq<char> {
    detector_static_name(d)@
}

/// Two UUIDs are the same: same width, same value.
pub open spec fn uuid_same(a: Uuid, b: Uuid) -> bool {
    match (a, b) {
        (Uuid::Uuid16(x), Uuid::Uuid16(y)) => x == y,
        (Uuid::Uuid128(x), Uuid::Uuid128(y)) => x@ == y@,
        _ => false,
    }
}

/// Some service of `services` has a UUID the same as one of `ids`.
pub open spec fn offers_any(services: Seq<Service>, ids: Seq<Uuid>) -> bool {
    exists|i: int, j: int|
        0 <= i < services.len() && 0 <= j < ids.len() && uuid_same(
            #[trigger] services[i].uuid,
            #[trigger] ids[j],
        )
}

/// Service UUID 0000ffe0-0000-1000-8000-00805f9b34fb of the Bookoo scale,
/// most significant byte first.
pub const BOOKOO_SERVICE_UUID_128: [u8; 16] = [
    0x00, 0x00, 0xFF, 0xE0, 0x00, 0x00, 0x10, 0x00,
    0x80, 0x00, 0x00, 0x80, 0x5F, 0x9B, 0x34, 0xFB,
];

/// The same service UUID in the order BLE discovery stores it, least
/// significant byte first.
pub const BOOKOO_SERVICE_UUID_128_LE: [u8; 16] = [
    0xFB, 0x34, 0x9B, 0x5F, 0x80, 0x00, 0x00, 0x80,
    0x00, 0x10, 0x00, 0x00, 0xE0, 0xFF, 0x00, 0x00,
];

/// 128-bit service UUID the Acaia detector looks for.
pub const ACAIA_SERVICE_UUID_128: [u8; 16] = [
    0x49, 0x53, 0x43, 0x41, 0x49, 0x41, 0x00, 0x00,
    0x10, 0x00, 0x80, 0x00, 0x00, 0x80, 0x5F, 0x9B,
];

/// Identifying service UUIDs of each detector.
pub open spec fn identifying_uuids(d: AnyScaleDetector) -> Seq<Uuid> {
    match d {
        AnyScaleDetector::Bookoo(_) => seq![
            Uuid::Uuid16(0x0FFE),
            Uuid::Uuid16(0xFFE0),
            Uuid::Uuid128(BOOKOO_SERVICE_UUID_128),
            Uuid::Uuid128(BOOKOO_SERVICE_UUID_128_LE),
        ],
        AnyScaleDetector::Acaia(_) => seq![Uuid::Uuid128(ACAIA_SERVICE_UUID_128)],
        AnyScaleDetector::Generic(_) => seq![
            Uuid::Uuid16(0x181D),
            Uuid::Uuid16(0x1809),
            Uuid::Uuid16(0x180F),
        ],
    }
}

/// Whether two UUIDs are the same.
fn uuid_same_exec(a: &Uuid, b: &Uuid) -> (r: bool)
    ensures
        r == uuid_same(*a, *b),
{
    match (a, b) {
        (Uuid::Uuid16(x), Uuid::Uuid16(y)) => *x == *y,
        (Uuid::Uuid128(x), Uuid::Uuid128(y)) => crate::ble::bytes16_equal(x, y),
        _ => false,
    }
}

/// Whether some service has one of the UUIDs of `ids`.
fn offers_any_exec(services: &[Service], ids: &Vec<Uuid>) -> (r: bool)
    ensures
        r == offers_any(services@, ids@),
{
    let mut i: usize = 0;
    while i < services.len()
        invariant
            i <= services@.len(),
            forall|a: int, b: int|
                0 <= a < i && 0 <= b < ids@.len() ==> !uuid_same(
                    #[trigger] services@[a].uuid,
                    #[trigger] ids@[b],
                ),
        decreases services@.len() - i,
    {
        let mut j: usize = 0;
        while j < ids.len()
            invariant
                i < services@.len(),
                j <= ids@.len(),
                forall|a: int, b: int|
                    0 <= a < i && 0 <= b < ids@.len() ==> !uuid_same(
                        #[trigger] services@[a].uuid,
                        #[trigger] ids@[b],
                    ),
                forall|b: int| 0 <= b < j ==> !uuid_same(services@[i as int].uuid, #[trigger] ids@[b]),
            decreases ids@.len() - j,
        {
            if uuid_same_exec(&services[i].uuid, &ids[j]) {
                return true;
            }
            j = j + 1;
        }
        i = i + 1;
    }
    false
}

/// Whether a name is a Bookoo name.
fn is_bookoo_named(name: &str) -> (r: bool)
    ensures
        r == bookoo_name(name@),
{
    str_starts_with(name, "BOOKOO_SC") || str_contains(name, "BOOKOO")
}

/// Whether a name is an Acaia name.
fn is_acaia_named(name: &str) -> (r: bool)
    ensures
        r == acaia_name(name@),
{
    str_starts_with(name, "ACAIA") || str_contains(name, "ACAIA") || str_starts_with(name, "PYXIS")
        || str_starts_with(name, "LUNAR")
}

/// Whether a name, upper-cased, contains a scale keyword.
fn is_generic_named(name: &str) -> (r: bool)
    ensures
        r == generic_name(name@),
{
    let upper = to_uppercase(name);
    let u = upper.as_str();
    let found = str_contains(u, "SCALE") || str_contains(u, "WEIGHT") || str_contains(u, "COFFEE")
        || str_contains(u, "BREWING") || str_contains(u, "GRAM");
    proof {
        let ks = scale_keywords();
        if contains_seq(u@, ks[0]) || contains_seq(u@, ks[1]) || contains_seq(u@, ks[2])
            || contains_seq(u@, ks[3]) || contains_seq(u@, ks[4]) {
            assert(generic_name(name@));
        }
        if generic_name(name@) {
            let i = choose|i: int| 0 <= i < 5 && contains_seq(uppercase_text(name@), #[trigger] ks[i]);
            assert(i == 0 || i == 1 || i == 2 || i == 3 || i == 4);
        }
    }
    found
}

impl ScaleDetector for BookooScaleDetector {
    fn can_handle_device(&self, device: &Device) -> (r: bool)
        ensures
            r == detector_handles(AnyScaleDetector::Bookoo(*self), *device),
    {
        match &device.name {
            Some(name) => is_bookoo_named(name.as_str()),
            None => false,
        }
    }

    fn get_priority(&self) -> (r: u8)
        ensures
            r == 100,
    {
        100
    }

    fn get_scale_type_name(&self) -> (r: &'static str)
        ensures
            r == "Bookoo",
    {
        "Bookoo"
    }
}

impl AdvancedScaleDetector for BookooScaleDetector {
    fn can_handle_services(&self, services: &[Service]) -> (r: bool)
        ensures
            r == offers_any(services@, identifying_uuids(AnyScaleDetector::Bookoo(*self))),
    {
        let ids = self.get_identifying_service_uuids();
        offers_any_exec(services, &ids)
    }

    fn get_identifying_service_uuids(&self) -> (r: Vec<Uuid>)
        ensures
            r@ == identifying_uuids(AnyScaleDetector::Bookoo(*self)),
    {
        let mut v: Vec<Uuid> = Vec::new();
        v.push(Uuid::from_u16(0x0FFE));
        v.push(Uuid::from_u16(0xFFE0));
        v.push(Uuid::from_u128_bytes(BOOKOO_SERVICE_UUID_128));
        v.push(Uuid::from_u128_bytes(BOOKOO_SERVICE_UUID_128_LE));
        proof {
            assert(v@ =~= identifying_uuids(AnyScaleDetector::Bookoo(*self)));
        }
        v
    }
}

impl ScaleDetector for AcaiaScaleDetector {
    fn can_handle_device(&self, device: &Device) -> (r: bool)
        ensures
            r == detector_handles(AnyScaleDetector::Acaia(*self), *device),
    {
        match &device.name {
            Some(name) => is_acaia_named(name.as_str()),
            None => false,
        }
    }

    fn get_priority(&self) -> (r: u8)
        ensures
            r == 90,
    {
        90
    }

    fn get_scale_type_name(&self) -> (r: &'static str)
        ensures
            r == "Acaia",
    {
        "Acaia"
    }
}

impl AdvancedScaleDetector for AcaiaScaleDetector {
    fn can_handle_services(&self, services: &[Service]) -> (r: bool)
        ensures
            r == offers_any(services@, identifying_uuids(AnyScaleDetector::Acaia(*self))),
    {
        let ids = self.get_identifying_service_uuids();
        offers_any_exec(services, &ids)
    }

    fn get_identifying_service_uuids(&self) -> (r: Vec<Uuid>)
        ensures
            r@ == identifying_uuids(AnyScaleDetector::Acaia(*self)),
    {
        let mut v: Vec<Uuid> = Vec::new();
        v.push(Uuid::from_u128_bytes(ACAIA_SERVICE_UUID_128));
        proof {
            assert(v@ =~= identifying_uuids(AnyScaleDetector::Acaia(*self)));
        }
        v
    }
}

impl ScaleDetector for GenericScaleDetector {
    fn can_handle_device(&self, device: &Device) -> (r: bool)
        ensures
            r == detector_handles(AnyScaleDetector::Generic(*self), *device),
    {
        match &device.name {
            Some(name) => is_generic_named(name.as_str()),
            None => false,
        }
    }

    fn get_priority(&self) -> (r: u8)
        ensures
            r == 10,
    {
        10
    }

    fn get_scale_type_name(&self) -> (r: &'static str)
        ensures
            r == "Generic",
    {
        "Generic"
    }
}

impl AdvancedScaleDetector for GenericScaleDetector {
    fn can_handle_services(&self, services: &[Service]) -> (r: bool)
        ensures
            r == offers_any(services@, identifying_uuids(AnyScaleDetector::Generic(*self))),
    {
        let ids = self.get_identifying_service_uuids();
        offers_any_exec(services, &ids)
    }

    fn get_identifying_service_uuids(&self) -> (r: Vec<Uuid>)
        ensures
            r@ == identifying_uuids(AnyScaleDetector::Generic(*self)),
    {
        let mut v: Vec<Uuid> = Vec::new();
        v.push(Uuid::from_u16(0x181D));
        v.push(Uuid::from_u16(0x1809));
        v.push(Uuid::from_u16(0x180F));
        proof {
            assert(v@ =~= identifying_uuids(AnyScaleDetector::Generic(*self)));
        }
        v
    }
}

impl ScaleDetector for AnyScaleDetector {
    fn can_handle_device(&self, device: &Device) -> (r: bool)
        ensures
            r == detector_handles(*self, *device),
    {
        match self {
            AnyScaleDetector::Bookoo(d) => d.can_handle_device(device),
            AnyScaleDetector::Acaia(d) => d.can_handle_device(device),
            AnyScaleDetector::Generic(d) => d.can_handle_device(device),
        }
    }

    fn get_priority(&self) -> (r: u8)
        ensures
            r == detector_priority(*self),
    {
        match self {
            AnyScaleDetector::Bookoo(d) => d.get_priority(),
            AnyScaleDetector::Acaia(d) => d.get_priority(),
            AnyScaleDetector::Generic(d) => d.get_priority(),
        }
    }

    fn get_scale_type_name(&self) -> (r: &'static str)
        ensures
            r == detector_static_name(*self),
    {
        match self {
            AnyScaleDetector::Bookoo(d) => d.get_scale_type_name(),
            AnyScaleDetector::Acaia(d) => d.get_scale_type_name(),
            AnyScaleDetector::Generic(d) => d.get_scale_type_name(),
        }
    }
}

impl AdvancedScaleDetector for AnyScaleDetector {
    fn can_handle_services(&self, services: &[Service]) -> (r: bool)
        ensures
            r == offers_any(services@, identifying_uuids(*self)),
    {
        match self {
            AnyScaleDetector::Bookoo(d) => d.can_handle_services(services),
            AnyScaleDetector::Acaia(d) => d.can_handle_services(services),
            AnyScaleDetector::Generic(d) => d.can_handle_services(services),
        }
    }

    fn get_identifying_service_uuids(&self) -> (r: Vec<Uuid>)
        ensures
            r@ == identifying_uuids(*self),
    {
        match self {
            AnyScaleDetector::Bookoo(d) => d.get_identifying_service_uuids(),
            AnyScaleDetector::Acaia(d) => d.get_identifying_service_uuids(),
            AnyScaleDetector::Generic(d) => d.get_identifying_service_uuids(),
        }
    }
}

/// The detectors available by default: Bookoo only.
pub fn create_all_scale_detectors() -> (r: Vec<AnyScaleDetector>)
    ensures
        r@ == seq![AnyScaleDetector::Bookoo(BookooScaleDetector)],
{
    let mut v: Vec<AnyScaleDetector> = Vec::new();
    v.push(AnyScaleDetector::Bookoo(BookooScaleDetector));
    proof {
        assert(v@ =~= seq![AnyScaleDetector::Bookoo(BookooScaleDetector)]);
    }
    v
}

/// The detector a type name asks for: `Bookoo`, `Acaia` or `Generic`.
pub open spec fn detector_for_name(n: Seq<char>) -> Option<AnyScaleDetector> {
    if n == "Bookoo"@ {
        Some(AnyScaleDetector::Bookoo(BookooScaleDetector))
    } else if n == "Acaia"@ {
        Some(AnyScaleDetector::Acaia(AcaiaScaleDetector))
    } else if n == "Generic"@ {
        Some(AnyScaleDetector::Generic(GenericScaleDetector))
    } else {
        None
    }
}

/// The detectors for the known names of `names`, in order; unknown names are
/// skipped.
pub open spec fn detectors_for(names: Seq<Seq<char>>) -> Seq<AnyScaleDetector>
    decreases names.len(),
{
    if names.len() == 0 {
        Seq::empty()
    } else {
        detectors_for(names.drop_last()) + match detector_for_name(names.last()) {
            Some(d) => seq![d],
            None => Seq::empty(),
        }
    }
}

/// The detectors for the given scale type names.
pub fn create_scale_detectors(scale_types: &[&str]) -> (r: Vec<AnyScaleDetector>)
    ensures
        r@ == detectors_for(scale_types@.map_values(|s: &str| s@)),
{
    let ghost names = scale_types@.map_values(|s: &str| s@);
    let mut v: Vec<AnyScaleDetector> = Vec::new();
    let mut i: usize = 0;
    while i < scale_types.len()
        invariant
            i <= scale_types@.len(),
            names == scale_types@.map_values(|s: &str| s@),
            v@ == detectors_for(names.take(i as int)),
        decreases scale_types@.len() - i,
    {
        let t = scale_types[i];
        proof {
            assert(names.take(i as int + 1).drop_last() =~= names.take(i as int));
            assert(names.take(i as int + 1).last() == t@);
        }
        if str_equals(t, "Bookoo") {
            v.push(AnyScaleDetector::Bookoo(BookooScaleDetector));
        } else if str_equals(t, "Acaia") {
            v.push(AnyScaleDetector::Acaia(AcaiaScaleDetector));
        } else if str_equals(t, "Generic") {
            v.push(AnyScaleDetector::Generic(GenericScaleDetector));
        }
        proof {
            assert(v@ =~= detectors_for(names.take(i as int + 1)));
        }
        i = i + 1;
    }
    proof {
        assert(names.take(names.len() as int) =~= names);
    }
    v
}

} // verus!
