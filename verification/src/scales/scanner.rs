//! Multi-brand scale scanning: the detector interface, the registry of
//! detectors ordered by priority, and the evaluation of discovered devices.

use vstd::prelude::*;
use crate::ble::{Device, Service, Uuid};
use crate::scales::detectors::{AnyScaleDetector, detector_handles, detector_priority, detector_static_name, detector_type_name};
use crate::text::str_equals;

verus! {

/// Errors of scale scanning.
#[derive(Debug, Clone, PartialEq, Eq)]
pub enum ScanError {
    BleError(String),
    NoDevicesFound,
    NoCompatibleScales,
    ConnectionFailed(String),
    Timeout,
}

/// The text of a scan error.
pub open spec fn scan_error_text(e: ScanError) -> Seq<char> {
    match e {
        ScanError::BleError(m) => "BLE error: "@ + m@,
        ScanError::NoDevicesFound => "No BLE devices found during scan"@,
        ScanError::NoCompatibleScales => "No compatible scales detected"@,
        ScanError::ConnectionFailed(m) => "Connection failed: "@ + m@,
        ScanError::Timeout => "Scan timeout"@,
    }
}

impl ScanError {
    /// The human-readable text of the error.
    pub fn message(&self) -> (r: String)
        ensures
            r@ == scan_error_text(*self),
    {
        match self {
            ScanError::BleError(m) => String::from_str("BLE error: ").concat(m.as_str()),
            ScanError::NoDevicesFound => String::from_str("No BLE devices found during scan"),
            ScanError::NoCompatibleScales => String::from_str("No compatible scales detected"),
            ScanError::ConnectionFailed(m) => {
                String::from_str("Connection failed: ").concat(m.as_str())
            },
            ScanError::Timeout => String::from_str("Scan timeout"),
        }
    }
}

/// Identifies devices of one scale brand.
pub trait ScaleDetector {
    /// Whether the device looks like a scale of this brand.
    fn can_handle_device(&self, device: &Device) -> bool;

    /// Priority among detectors; higher is more specific.
    fn get_priority(&self) -> u8;

    /// Name of the scale type.
    fn get_scale_type_name(&self) -> &'static str;
}

/// A detector that can also recognise a scale by its services.
pub trait AdvancedScaleDetector: ScaleDetector {
    /// Whether the discovered services identify this brand.
    fn can_handle_services(&self, services: &[Service]) -> bool;

    /// Service UUIDs that identify this brand.
    fn get_identifying_service_uuids(&self) -> Vec<Uuid>;
}

/// The items of `s` whose key is `k`, in their order in `s`.
pub open spec fn with_key<T>(s: Seq<T>, key: spec_fn(T) -> int, k: int) -> Seq<T>
    decreases s.len(),
{
    if s.len() == 0 {
        Seq::empty()
    } else {
        with_key(s.drop_last(), key, k) + if key(s.last()) == k {
            seq![s.last()]
        } else {
            Seq::empty()
        }
    }
}

/// The items of `s` with keys from 255 down to `k`, highest key first, those
/// of equal key in their order in `s`.
pub open spec fn by_key_from<T>(s: Seq<T>, key: spec_fn(T) -> int, k: int) -> Seq<T>
    decreases 256 - k,
{
    if k >= 256 || k < 0 {
        Seq::empty()
    } else {
        by_key_from(s, key, k + 1) + with_key(s, key, k)
    }
}

/// Priority of a detector, as a sort key.
pub open spec fn detector_key() -> spec_fn(AnyScaleDetector) -> int {
    |d: AnyScaleDetector| detector_priority(d) as int
}

/// Priority of a candidate, as a sort key.
pub open spec fn candidate_key() -> spec_fn(ScaleCandidate) -> int {
    |c: ScaleCandidate| c.priority as int
}

/// `s` stably sorted by descending priority.
pub open spec fn by_priority(s: Seq<AnyScaleDetector>) -> Seq<AnyScaleDetector> {
    by_key_from(s, detector_key(), 0)
}

/// All detectors of `s` are Bookoo detectors.
pub open spec fn all_bookoo(s: Seq<AnyScaleDetector>) -> bool {
    forall|i: int| 0 <= i < s.len() ==> s[i] == AnyScaleDetector::Bookoo(crate::scales::detectors::BookooScaleDetector)
}

proof fn lemma_with_key_uniform(s: Seq<AnyScaleDetector>, k: int)
    requires
        all_bookoo(s),
    ensures
        with_key(s, detector_key(), k) == (if k == 100 { s } else { Seq::<AnyScaleDetector>::empty() }),
    decreases s.len(),
{
    if s.len() > 0 {
        lemma_with_key_uniform(s.drop_last(), k);
        assert(s.drop_last().push(s.last()) =~= s);
        assert(Seq::<AnyScaleDetector>::empty() + Seq::<AnyScaleDetector>::empty() =~= Seq::<AnyScaleDetector>::empty());
    } else {
        assert(s =~= Seq::<AnyScaleDetector>::empty());
    }
}

proof fn lemma_by_key_from_uniform(s: Seq<AnyScaleDetector>, k: int)
    requires
        all_bookoo(s),
        0 <= k <= 256,
    ensures
        by_key_from(s, detector_key(), k) == (if k <= 100 { s } else { Seq::<AnyScaleDetector>::empty() }),
    decreases 256 - k,
{
    if k < 256 {
        lemma_by_key_from_uniform(s, k + 1);
        lemma_with_key_uniform(s, k);
        assert(s + Seq::<AnyScaleDetector>::empty() =~= s);
        assert(Seq::<AnyScaleDetector>::empty() + s =~= s);
        assert(Seq::<AnyScaleDetector>::empty() + Seq::<AnyScaleDetector>::empty() =~= Seq::<AnyScaleDetector>::empty());
    }
}

/// Sorting detectors of one kind by priority leaves them as they are.
pub proof fn lemma_by_priority_uniform(s: Seq<AnyScaleDetector>)
    requires
        all_bookoo(s),
    ensures
        by_priority(s) == s,
{
    lemma_by_key_from_uniform(s, 0);
}

/// The detectors of `v` with priority `k`, in order.
fn select_priority(v: &Vec<AnyScaleDetector>, k: u8) -> (r: Vec<AnyScaleDetector>)
    ensures
        r@ == with_key(v@, detector_key(), k as int),
{
    let mut out: Vec<AnyScaleDetector> = Vec::new();
    let mut i: usize = 0;
    while i < v.len()
        invariant
            i <= v@.len(),
            out@ == with_key(v@.take(i as int), detector_key(), k as int),
        decreases v@.len() - i,
    {
        let d = v[i];
        let p = d.get_priority();
        proof {
            assert(v@.take(i as int + 1).drop_last() =~= v@.take(i as int));
        }
        if p == k {
            out.push(d);
        }
        i = i + 1;
    }
    proof {
        assert(v@.take(v@.len() as int) =~= v@);
    }
    out
}

/// `v` stably sorted by descending priority.
fn sort_by_priority(v: &Vec<AnyScaleDetector>) -> (r: Vec<AnyScaleDetector>)
    ensures
        r@ == by_priority(v@),
{
    let mut out: Vec<AnyScaleDetector> = Vec::new();
    let mut k: u16 = 256;
    while k > 0
        invariant
            k <= 256,
            out@ == by_key_from(v@, detector_key(), k as int),
        decreases k,
    {
        k = k - 1;
        let mut level = select_priority(v, k as u8);
        out.append(&mut level);
    }
    out
}

/// The candidates of `v` with priority `k`, in order.
fn select_candidates(v: &Vec<ScaleCandidate>, k: u8) -> (r: Vec<ScaleCandidate>)
    ensures
        r@ == with_key(v@, candidate_key(), k as int),
{
    let mut out: Vec<ScaleCandidate> = Vec::new();
    let mut i: usize = 0;
    while i < v.len()
        invariant
            i <= v@.len(),
            out@ == with_key(v@.take(i as int), candidate_key(), k as int),
        decreases v@.len() - i,
    {
        proof {
            assert(v@.take(i as int + 1).drop_last() =~= v@.take(i as int));
        }
        if v[i].priority == k {
            out.push(v[i].duplicate());
        }
        i = i + 1;
    }
    proof {
        assert(v@.take(v@.len() as int) =~= v@);
    }
    out
}

/// `v` stably sorted by descending priority.
fn sort_candidates(v: &Vec<ScaleCandidate>) -> (r: Vec<ScaleCandidate>)
    ensures
        r@ == by_key_from(v@, candidate_key(), 0),
{
    let mut out: Vec<ScaleCandidate> = Vec::new();
    let mut k: u16 = 256;
    while k > 0
        invariant
            k <= 256,
            out@ == by_key_from(v@, candidate_key(), k as int),
        decreases k,
    {
        k = k - 1;
        let mut level = select_candidates(v, k as u8);
        out.append(&mut level);
    }
    out
}

/// Position of the first preferred type name equal to `name`, if any.
pub open spec fn preference_position(prefs: Seq<Seq<char>>, name: Seq<char>) -> Option<int>
    decreases prefs.len(),
{
    if prefs.len() == 0 {
        None
    } else {
        match preference_position(prefs.drop_last(), name) {
            Some(p) => Some(p),
            None => if prefs.last() == name {
                Some(prefs.len() - 1)
            } else {
                None
            },
        }
    }
}

/// The preference group of a detector: its position among the preferred
/// types, or the number of preferred types when it is not among them.
pub open spec fn preference_group(prefs: Seq<Seq<char>>, d: AnyScaleDetector) -> int {
    match preference_position(prefs, detector_type_name(d)) {
        Some(p) => p,
        None => prefs.len() as int,
    }
}

/// The detectors of `s` in preference group `g`, in their order in `s`.
pub open spec fn in_group(s: Seq<AnyScaleDetector>, prefs: Seq<Seq<char>>, g: int) -> Seq<AnyScaleDetector>
    decreases s.len(),
{
    if s.len() == 0 {
        Seq::empty()
    } else {
        in_group(s.drop_last(), prefs, g) + if preference_group(prefs, s.last()) == g {
            seq![s.last()]
        } else {
            Seq::empty()
        }
    }
}

/// Groups 0 up to `g`, each sorted by descending priority.
pub open spec fn by_preference_upto(s: Seq<AnyScaleDetector>, prefs: Seq<Seq<char>>, g: int) -> Seq<AnyScaleDetector>
    decreases g + 1,
{
    if g < 0 {
        Seq::empty()
    } else {
        by_preference_upto(s, prefs, g - 1) + by_priority(in_group(s, prefs, g))
    }
}

/// The order `configure` gives the detectors: the preferred ones first, in
/// the order of the preferences, then those not preferred; within each group
/// by descending priority, stably.
pub open spec fn by_preference(s: Seq<AnyScaleDetector>, prefs: Seq<Seq<char>>) -> Seq<AnyScaleDetector> {
    by_preference_upto(s, prefs, prefs.len() as int)
}

/// Position of the first of `prefs` equal to `name`.
fn find_preference(prefs: &Vec<String>, name: &str) -> (r: Option<usize>)
    ensures
        match r {
            Some(p) => preference_position(prefs@.map_values(|s: String| s@), name@) == Some(p as int),
            None => preference_position(prefs@.map_values(|s: String| s@), name@) is None,
        },
{
    let ghost views = prefs@.map_values(|s: String| s@);
    let mut i: usize = 0;
    while i < prefs.len()
        invariant
            i <= prefs@.len(),
            views == prefs@.map_values(|s: String| s@),
            preference_position(views.take(i as int), name@) is None,
        decreases prefs@.len() - i,
    {
        proof {
            assert(views.take(i as int + 1).drop_last() =~= views.take(i as int));
        }
        if str_equals(prefs[i].as_str(), name) {
            proof {
                lemma_position_of_prefix(views, name@, i as int + 1);
            }
            return Some(i);
        }
        i = i + 1;
    }
    proof {
        assert(views.take(views.len() as int) =~= views);
    }
    None
}

/// A position found in a prefix is the position in the whole sequence.
proof fn lemma_position_of_prefix(prefs: Seq<Seq<char>>, name: Seq<char>, n: int)
    requires
        0 <= n <= prefs.len(),
        preference_position(prefs.take(n), name) is Some,
    ensures
        preference_position(prefs, name) == preference_position(prefs.take(n), name),
    decreases prefs.len() - n,
{
    if n < prefs.len() {
        assert(prefs.take(n + 1).drop_last() =~= prefs.take(n));
        lemma_position_of_prefix(prefs, name, n + 1);
    } else {
        assert(prefs.take(n) =~= prefs);
    }
}

/// Preference group of a detector, computed.
fn group_of(prefs: &Vec<String>, d: &AnyScaleDetector) -> (r: usize)
    ensures
        r == preference_group(prefs@.map_values(|s: String| s@), *d),
{
    match find_preference(prefs, d.get_scale_type_name()) {
        Some(p) => p,
        None => prefs.len(),
    }
}

/// The detectors of `v` in preference group `g`, in order.
fn select_group(v: &Vec<AnyScaleDetector>, prefs: &Vec<String>, g: usize) -> (r: Vec<AnyScaleDetector>)
    ensures
        r@ == in_group(v@, prefs@.map_values(|s: String| s@), g as int),
{
    let ghost views = prefs@.map_values(|s: String| s@);
    let mut out: Vec<AnyScaleDetector> = Vec::new();
    let mut i: usize = 0;
    while i < v.len()
        invariant
            i <= v@.len(),
            views == prefs@.map_values(|s: String| s@),
            out@ == in_group(v@.take(i as int), views, g as int),
        decreases v@.len() - i,
    {
        let d = v[i];
        proof {
            assert(v@.take(i as int + 1).drop_last() =~= v@.take(i as int));
        }
        if group_of(prefs, &d) == g {
            out.push(d);
        }
        i = i + 1;
    }
    proof {
        assert(v@.take(v@.len() as int) =~= v@);
    }
    out
}

/// A candidate device with the detector that recognised it.
#[derive(Debug, Clone)]
pub struct ScaleCandidate {
    pub device: Device,
    pub detector_index: usize,
    pub priority: u8,
    pub scale_type: &'static str,
}

impl ScaleCandidate {
    /// A copy of the candidate.
    pub fn duplicate(&self) -> (r: Self)
        ensures
            r == *self,
    {
        ScaleCandidate {
            device: self.device.duplicate(),
            detector_index: self.detector_index,
            priority: self.priority,
            scale_type: self.scale_type,
        }
    }
}

/// Scan settings.
#[derive(Debug, Clone)]
pub struct ScanConfig {
    pub scan_timeout_ms: u32,
    pub connection_timeout_ms: u32,
    pub preferred_scale_types: Vec<String>,
    pub retry_attempts: u32,
    pub retry_delay_ms: u32,
}

impl Default for ScanConfig {
    /// Ten-second scans, five-second connections, Bookoo preferred, three
    /// attempts two seconds apart.
    fn default() -> (r: Self)
        ensures
            r.scan_timeout_ms == 10000,
            r.connection_timeout_ms == 5000,
            r.preferred_scale_types@.len() == 1,
            r.preferred_scale_types@[0]@ == "Bookoo"@,
            r.retry_attempts == 3,
            r.retry_delay_ms == 2000,
    {
        let mut prefs: Vec<String> = Vec::new();
        prefs.push(String::from_str("Bookoo"));
        ScanConfig {
            scan_timeout_ms: 10000,
            connection_timeout_ms: 5000,
            preferred_scale_types: prefs,
            retry_attempts: 3,
            retry_delay_ms: 2000,
        }
    }
}

/// The registry of detectors and the scan timing of a scale scanner.
pub struct ScaleScanner {
    pub detectors: Vec<AnyScaleDetector>,
    pub scan_timeout_ms: u32,
    pub connection_timeout_ms: u32,
}

/// Position of the first detector of `ds` that handles the device.
pub open spec fn first_handler(ds: Seq<AnyScaleDetector>, d: Device) -> Option<int>
    decreases ds.len(),
{
    if ds.len() == 0 {
        None
    } else {
        match first_handler(ds.drop_last(), d) {
            Some(i) => Some(i),
            None => if detector_handles(ds.last(), d) {
                Some(ds.len() - 1)
            } else {
                None
            },
        }
    }
}

/// Position of the first detector of `ds` named `name`.
pub open spec fn first_of_type(ds: Seq<AnyScaleDetector>, name: Seq<char>) -> Option<int>
    decreases ds.len(),
{
    if ds.len() == 0 {
        None
    } else {
        match first_of_type(ds.drop_last(), name) {
            Some(i) => Some(i),
            None => if detector_type_name(ds.last()) == name {
                Some(ds.len() - 1)
            } else {
                None
            },
        }
    }
}

/// The candidates of `devs` in device order: each device some detector
/// handles, with the first such detector's priority and type.
pub open spec fn raw_candidates(ds: Seq<AnyScaleDetector>, devs: Seq<Device>) -> Seq<ScaleCandidate>
    decreases devs.len(),
{
    if devs.len() == 0 {
        Seq::empty()
    } else {
        raw_candidates(ds, devs.drop_last()) + match first_handler(ds, devs.last()) {
            Some(k) => seq![ScaleCandidate {
                device: devs.last(),
                detector_index: 0,
                priority: detector_priority(ds[k]),
                scale_type: detector_static_name(ds[k]),
            }],
            None => Seq::empty(),
        }
    }
}

/// Each candidate with its index replaced by that of the first detector of
/// its type (0 when none).
pub open spec fn with_detector_indices(ds: Seq<AnyScaleDetector>, cs: Seq<ScaleCandidate>) -> Seq<ScaleCandidate> {
    cs.map_values(|c: ScaleCandidate| ScaleCandidate {
        detector_index: match first_of_type(ds, c.scale_type@) {
            Some(i) => i as usize,
            None => 0,
        },
        ..c
    })
}

/// A lemma: a position found in a prefix of the detectors stays the first one.
proof fn lemma_first_handler_prefix(ds: Seq<AnyScaleDetector>, d: Device, n: int)
    requires
        0 <= n <= ds.len(),
        first_handler(ds.take(n), d) is Some,
    ensures
        first_handler(ds, d) == first_handler(ds.take(n), d),
    decreases ds.len() - n,
{
    if n < ds.len() {
        assert(ds.take(n + 1).drop_last() =~= ds.take(n));
        lemma_first_handler_prefix(ds, d, n + 1);
    } else {
        assert(ds.take(n) =~= ds);
    }
}

/// A lemma: a position found in a prefix of the detectors stays the first one.
proof fn lemma_first_of_type_prefix(ds: Seq<AnyScaleDetector>, name: Seq<char>, n: int)
    requires
        0 <= n <= ds.len(),
        first_of_type(ds.take(n), name) is Some,
    ensures
        first_of_type(ds, name) == first_of_type(ds.take(n), name),
    decreases ds.len() - n,
{
    if n < ds.len() {
        assert(ds.take(n + 1).drop_last() =~= ds.take(n));
        lemma_first_of_type_prefix(ds, name, n + 1);
    } else {
        assert(ds.take(n) =~= ds);
    }
}

impl ScaleScanner {
    /// A scanner with no detectors, ten-second scans and five-second
    /// connections.
    pub fn new() -> (r: Self)
        ensures
            r.detectors@.len() == 0,
            r.scan_timeout_ms == 10000,
            r.connection_timeout_ms == 5000,
    {
        ScaleScanner { detectors: Vec::new(), scan_timeout_ms: 10000, connection_timeout_ms: 5000 }
    }

    /// Adds a detector, keeping the detectors stably sorted by descending
    /// priority.
    pub fn register_detector(&mut self, detector: AnyScaleDetector)
        ensures
            final(self).detectors@ == by_priority(old(self).detectors@.push(detector)),
            final(self).scan_timeout_ms == old(self).scan_timeout_ms,
            final(self).connection_timeout_ms == old(self).connection_timeout_ms,
    {
        self.detectors.push(detector);
        let sorted = sort_by_priority(&self.detectors);
        self.detectors = sorted;
    }

    /// Sets the scan timeout.
    pub fn set_scan_timeout(&mut self, timeout_ms: u32)
        ensures
            final(self).scan_timeout_ms == timeout_ms,
            final(self).detectors@ == old(self).detectors@,
            final(self).connection_timeout_ms == old(self).connection_timeout_ms,
    {
        self.scan_timeout_ms = timeout_ms;
    }

    /// Sets the connection timeout.
    pub fn set_connection_timeout(&mut self, timeout_ms: u32)
        ensures
            final(self).connection_timeout_ms == timeout_ms,
            final(self).detectors@ == old(self).detectors@,
            final(self).scan_timeout_ms == old(self).scan_timeout_ms,
    {
        self.connection_timeout_ms = timeout_ms;
    }

    /// Names of the registered scale types, in detector order.
    pub fn get_registered_scale_types(&self) -> (r: Vec<&'static str>)
        ensures
            r@.len() == self.detectors@.len(),
            forall|i: int| 0 <= i < r@.len() ==> #[trigger] r@[i]@ == detector_type_name(self.detectors@[i]),
    {
        let mut out: Vec<&'static str> = Vec::new();
        let mut i: usize = 0;
        while i < self.detectors.len()
            invariant
                i <= self.detectors@.len(),
                out@.len() == i,
                forall|j: int| 0 <= j < i ==> #[trigger] out@[j]@ == detector_type_name(self.detectors@[j]),
            decreases self.detectors@.len() - i,
        {
            out.push(self.detectors[i].get_scale_type_name());
            i = i + 1;
        }
        out
    }

    /// Applies the timeouts of `config` and, when it names preferred types,
    /// reorders the detectors: the preferred ones first, in the order they are
    /// named, then the others, each group by descending priority.
    pub fn configure(&mut self, config: &ScanConfig)
        ensures
            final(self).scan_timeout_ms == config.scan_timeout_ms,
            final(self).connection_timeout_ms == config.connection_timeout_ms,
            config.preferred_scale_types@.len() == 0 ==> final(self).detectors@ == old(self).detectors@,
            config.preferred_scale_types@.len() > 0 ==> final(self).detectors@ == by_preference(
                old(self).detectors@,
                config.preferred_scale_types@.map_values(|s: String| s@),
            ),
    {
        self.scan_timeout_ms = config.scan_timeout_ms;
        self.connection_timeout_ms = config.connection_timeout_ms;
        let prefs = &config.preferred_scale_types;
        if prefs.len() > 0 {
            let ghost views = prefs@.map_values(|s: String| s@);
            let ghost old_ds = self.detectors@;
            let n = prefs.len();
            let mut out: Vec<AnyScaleDetector> = Vec::new();
            let mut g: usize = 0;
            proof {
                assert(by_preference_upto(old_ds, views, -1) =~= Seq::<AnyScaleDetector>::empty());
            }
            // Groups run from 0 up to n; `out` holds the groups below `g`.
            while g < n
                invariant
                    g <= n,
                    n == prefs@.len(),
                    views == prefs@.map_values(|s: String| s@),
                    old_ds == self.detectors@,
                    out@ == by_preference_upto(old_ds, views, g as int - 1),
                decreases n - g,
            {
                let group = select_group(&self.detectors, prefs, g);
                let mut level = sort_by_priority(&group);
                proof {
                    assert(by_preference_upto(old_ds, views, g as int) == by_preference_upto(old_ds, views, g as int - 1) + by_priority(in_group(old_ds, views, g as int)));
                }
                out.append(&mut level);
                g = g + 1;
            }
            // Last, the detectors not preferred.
            let rest = select_group(&self.detectors, prefs, n);
            let mut level = sort_by_priority(&rest);
            proof {
                assert(by_preference_upto(old_ds, views, n as int) == by_preference_upto(old_ds, views, n as int - 1) + by_priority(in_group(old_ds, views, n as int)));
            }
            out.append(&mut level);
            self.detectors = out;
        }
    }

    /// Position of the first detector that handles `device`.
    fn first_handling_detector(&self, device: &Device) -> (r: Option<usize>)
        ensures
            match r {
                Some(k) => first_handler(self.detectors@, *device) == Some(k as int) && k < self.detectors@.len(),
                None => first_handler(self.detectors@, *device) is None,
            },
    {
        let mut i: usize = 0;
        while i < self.detectors.len()
            invariant
                i <= self.detectors@.len(),
                first_handler(self.detectors@.take(i as int), *device) is None,
            decreases self.detectors@.len() - i,
        {
            proof {
                assert(self.detectors@.take(i as int + 1).drop_last() =~= self.detectors@.take(i as int));
            }
            if self.detectors[i].can_handle_device(device) {
                proof {
                    lemma_first_handler_prefix(self.detectors@, *device, i as int + 1);
                }
                return Some(i);
            }
            i = i + 1;
        }
        proof {
            assert(self.detectors@.take(self.detectors@.len() as int) =~= self.detectors@);
        }
        None
    }

    /// Position of the first detector of type `name`, or 0.
    fn detector_index_of(&self, name: &str) -> (r: usize)
        ensures
            r == match first_of_type(self.detectors@, name@) {
                Some(i) => i as usize,
                None => 0usize,
            },
    {
        let mut i: usize = 0;
        while i < self.detectors.len()
            invariant
                i <= self.detectors@.len(),
                first_of_type(self.detectors@.take(i as int), name@) is None,
            decreases self.detectors@.len() - i,
        {
            proof {
                assert(self.detectors@.take(i as int + 1).drop_last() =~= self.detectors@.take(i as int));
            }
            if str_equals(self.detectors[i].get_scale_type_name(), name) {
                proof {
                    lemma_first_of_type_prefix(self.detectors@, name@, i as int + 1);
                }
                return i;
            }
            i = i + 1;
        }
        proof {
            assert(self.detectors@.take(self.detectors@.len() as int) =~= self.detectors@);
        }
        0
    }

    /// The devices some detector handles, each with the first such detector
    /// in registry order, stably sorted by descending priority; each
    /// candidate's index is that of the first detector of its type.
    pub fn evaluate_device_candidates(&self, devices: Vec<Device>) -> (r: Vec<ScaleCandidate>)
        ensures
            r@ == with_detector_indices(
                self.detectors@,
                by_key_from(raw_candidates(self.detectors@, devices@), candidate_key(), 0),
            ),
    {
        let mut found: Vec<ScaleCandidate> = Vec::new();
        let mut i: usize = 0;
        while i < devices.len()
            invariant
                i <= devices@.len(),
                found@ == raw_candidates(self.detectors@, devices@.take(i as int)),
            decreases devices@.len() - i,
        {
            proof {
                assert(devices@.take(i as int + 1).drop_last() =~= devices@.take(i as int));
            }
            let h = self.first_handling_detector(&devices[i]);
            if let Some(k) = h {
                let det = self.detectors[k];
                let candidate = ScaleCandidate {
                    device: devices[i].duplicate(),
                    detector_index: 0,
                    priority: det.get_priority(),
                    scale_type: det.get_scale_type_name(),
                };
                found.push(candidate);
            }
            proof {
                assert(found@ =~= raw_candidates(self.detectors@, devices@.take(i as int + 1)));
            }
            i = i + 1;
        }
        proof {
            assert(devices@.take(devices@.len() as int) =~= devices@);
        }
        let sorted = sort_candidates(&found);
        let ghost sorted_view = sorted@;
        let mut out: Vec<ScaleCandidate> = Vec::new();
        let mut j: usize = 0;
        while j < sorted.len()
            invariant
                j <= sorted@.len(),
                sorted@ == sorted_view,
                out@ == with_detector_indices(self.detectors@, sorted_view.take(j as int)),
            decreases sorted@.len() - j,
        {
            let mut c = sorted[j].duplicate();
            c.detector_index = self.detector_index_of(c.scale_type);
            out.push(c);
            proof {
                assert(out@ =~= with_detector_indices(self.detectors@, sorted_view.take(j as int + 1)));
            }
            j = j + 1;
        }
        proof {
            assert(sorted_view.take(sorted_view.len() as int) =~= sorted_view);
        }
        out
    }
}

/// Every item selected for key `k` has key `k`.
proof fn lemma_with_key_keys<T>(s: Seq<T>, key: spec_fn(T) -> int, k: int)
    ensures
        forall|i: int| 0 <= i < with_key(s, key, k).len() ==> key(#[trigger] with_key(s, key, k)[i]) == k,
    decreases s.len(),
{
    if s.len() > 0 {
        lemma_with_key_keys(s.drop_last(), key, k);
        let a = with_key(s.drop_last(), key, k);
        let b = if key(s.last()) == k { seq![s.last()] } else { Seq::<T>::empty() };
        assert forall|i: int| 0 <= i < (a + b).len() implies key(#[trigger] (a + b)[i]) == k by {
            if i < a.len() {
                assert((a + b)[i] == a[i]);
            } else {
                assert((a + b)[i] == b[i - a.len()]);
            }
        }
    }
}

/// The items ordered from key `k` upwards have keys of at least `k`, in
/// descending order.
proof fn lemma_by_key_from_sorted<T>(s: Seq<T>, key: spec_fn(T) -> int, k: int)
    requires
        0 <= k <= 256,
    ensures
        forall|i: int| 0 <= i < by_key_from(s, key, k).len() ==> key(#[trigger] by_key_from(s, key, k)[i]) >= k,
        forall|i: int, j: int|
            0 <= i < j < by_key_from(s, key, k).len() ==> key(#[trigger] by_key_from(s, key, k)[i]) >= key(
                #[trigger] by_key_from(s, key, k)[j],
            ),
    decreases 256 - k,
{
    if k < 256 {
        lemma_by_key_from_sorted(s, key, k + 1);
        lemma_with_key_keys(s, key, k);
        let a = by_key_from(s, key, k + 1);
        let b = with_key(s, key, k);
        assert(by_key_from(s, key, k) == a + b);
        assert forall|i: int| 0 <= i < (a + b).len() implies key(#[trigger] (a + b)[i]) >= k by {
            if i < a.len() {
                assert((a + b)[i] == a[i]);
            } else {
                assert((a + b)[i] == b[i - a.len()]);
            }
        }
        assert forall|i: int, j: int| 0 <= i < j < (a + b).len() implies key(#[trigger] (a + b)[i]) >= key(
            #[trigger] (a + b)[j],
        ) by {
            if j < a.len() {
                assert((a + b)[i] == a[i]);
                assert((a + b)[j] == a[j]);
            } else if i >= a.len() {
                assert((a + b)[i] == b[i - a.len()]);
                assert((a + b)[j] == b[j - a.len()]);
            } else {
                assert((a + b)[i] == a[i]);
                assert((a + b)[j] == b[j - a.len()]);
            }
        }
    } else {
        assert(by_key_from(s, key, k) =~= Seq::<T>::empty());
    }
}

/// After registering a detector the registry is ordered by descending
/// priority.
pub proof fn law_registry_sorted_by_priority(ds: Seq<AnyScaleDetector>, d: AnyScaleDetector)
    ensures
        forall|i: int, j: int|
            0 <= i < j < by_priority(ds.push(d)).len() ==> detector_priority(#[trigger] by_priority(ds.push(d))[i])
                >= detector_priority(#[trigger] by_priority(ds.push(d))[j]),
{
    lemma_by_key_from_sorted(ds.push(d), detector_key(), 0);
    let r = by_priority(ds.push(d));
    assert forall|i: int, j: int| 0 <= i < j < r.len() implies detector_priority(#[trigger] r[i]) >= detector_priority(
        #[trigger] r[j],
    ) by {
        assert(detector_key()(r[i]) >= detector_key()(r[j]));
    }
}

/// Candidates come out ordered by descending priority.
pub proof fn law_candidates_sorted_by_priority(ds: Seq<AnyScaleDetector>, devs: Seq<Device>)
    ensures
        ({
            let r = with_detector_indices(ds, by_key_from(raw_candidates(ds, devs), candidate_key(), 0));
            forall|i: int, j: int| 0 <= i < j < r.len() ==> (#[trigger] r[i]).priority >= (#[trigger] r[j]).priority
        }),
{
    let sorted = by_key_from(raw_candidates(ds, devs), candidate_key(), 0);
    lemma_by_key_from_sorted(raw_candidates(ds, devs), candidate_key(), 0);
    let r = with_detector_indices(ds, sorted);
    assert forall|i: int, j: int| 0 <= i < j < r.len() implies (#[trigger] r[i]).priority >= (#[trigger] r[j]).priority by {
        assert(r[i].priority == sorted[i].priority);
        assert(r[j].priority == sorted[j].priority);
        assert(candidate_key()(sorted[i]) >= candidate_key()(sorted[j]));
    }
}

/// What a scan-and-connect loop does after an attempt.
#[derive(Debug, Clone, PartialEq, Eq)]
pub enum RetryStep<E> {
    /// The attempt connected: done.
    Connected,
    /// The attempt failed and attempts remain: wait this long, then retry.
    RetryAfter(u64),
    /// The last attempt failed: give up with its error.
    GiveUp(E),
}

/// The decision after attempt `attempt` (counted from 1) of `max_attempts`:
/// a connection ends the loop, a failure is retried after the delay while
/// attempts remain, and the failure of the last attempt is returned.
pub fn retry_step<E>(attempt: u32, max_attempts: u32, retry_delay_ms: u64, outcome: Result<(), E>) -> (r: RetryStep<E>)
    ensures
        match outcome {
            Ok(_) => r == RetryStep::<E>::Connected,
            Err(e) => if attempt < max_attempts {
                r == RetryStep::<E>::RetryAfter(retry_delay_ms)
            } else {
                r == RetryStep::GiveUp(e)
            },
        },
{
    match outcome {
        Ok(()) => RetryStep::Connected,
        Err(e) => {
            if attempt < max_attempts {
                RetryStep::RetryAfter(retry_delay_ms)
            } else {
                RetryStep::GiveUp(e)
            }
        },
    }
}

/// The error of a loop allowed no attempt at all: a timeout; `None` when
/// there is an attempt to make.
pub fn no_attempt_error(max_attempts: u32) -> (r: Option<ScanError>)
    ensures
        max_attempts == 0 ==> r == Some(ScanError::Timeout),
        max_attempts > 0 ==> r is None,
{
    if max_attempts == 0 {
        Some(ScanError::Timeout)
    } else {
        None
    }
}

} // verus!
