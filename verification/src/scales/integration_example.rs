//! How a scale manager sets up its scanner, and what it reports.

use vstd::prelude::*;
use crate::scales::detectors::{create_all_scale_detectors, AnyScaleDetector, BookooScaleDetector};
use crate::scales::scanner::{by_preference, by_priority, ScaleScanner, ScanConfig};
use crate::scales::traits::ScaleInfo;
use crate::text::str_equals;

verus! {

/// What the web interface shows about the scale.
#[derive(Debug, Clone)]
pub struct ScaleStatus {
    pub connected: bool,
    pub scale_info: Option<String>,
    pub supported_types: Vec<&'static str>,
}

/// The scanner of a scale manager: every available detector registered,
/// then configured for 15-second scans, 8-second connections and Bookoo
/// preferred.
pub fn default_scanner() -> (r: ScaleScanner)
    ensures
        r.scan_timeout_ms == 15000,
        r.connection_timeout_ms == 8000,
        r.detectors@ == by_preference(
            by_priority(seq![AnyScaleDetector::Bookoo(BookooScaleDetector)]),
            seq!["Bookoo"@],
        ),
{
    let mut scanner = ScaleScanner::new();
    let detectors = create_all_scale_detectors();
    let d = detectors[0];
    proof {
        assert(scanner.detectors@ =~= Seq::<AnyScaleDetector>::empty());
        assert(scanner.detectors@.push(d) =~= seq![AnyScaleDetector::Bookoo(BookooScaleDetector)]);
    }
    scanner.register_detector(d);
    let mut prefs: Vec<String> = Vec::new();
    prefs.push(String::from_str("Bookoo"));
    let config = ScanConfig {
        scan_timeout_ms: 15000,
        connection_timeout_ms: 8000,
        preferred_scale_types: prefs,
        retry_attempts: 3,
        retry_delay_ms: 5000,
    };
    proof {
        assert(config.preferred_scale_types@.map_values(|s: String| s@) =~= seq!["Bookoo"@]);
    }
    scanner.configure(&config);
    scanner
}

/// The detectors a list of type names asks for: only `Bookoo` is known
/// here; each occurrence registers its detector.
pub open spec fn bookoo_count(names: Seq<Seq<char>>) -> nat
    decreases names.len(),
{
    if names.len() == 0 {
        0
    } else {
        bookoo_count(names.drop_last()) + if names.last() == "Bookoo"@ { 1nat } else { 0nat }
    }
}

/// A scanner with a Bookoo detector registered for each `Bookoo` in
/// `scale_types`; other names are ignored.
pub fn scanner_for_types(scale_types: &[&str]) -> (r: ScaleScanner)
    ensures
        r.detectors@.len() == bookoo_count(scale_types@.map_values(|s: &str| s@)),
        forall|i: int| 0 <= i < r.detectors@.len() ==> r.detectors@[i] == AnyScaleDetector::Bookoo(BookooScaleDetector),
        r.scan_timeout_ms == 10000,
        r.connection_timeout_ms == 5000,
{
    let ghost names = scale_types@.map_values(|s: &str| s@);
    let mut scanner = ScaleScanner::new();
    let mut i: usize = 0;
    while i < scale_types.len()
        invariant
            i <= scale_types@.len(),
            names == scale_types@.map_values(|s: &str| s@),
            scanner.detectors@.len() == bookoo_count(names.take(i as int)),
            forall|j: int| 0 <= j < scanner.detectors@.len() ==> scanner.detectors@[j] == AnyScaleDetector::Bookoo(BookooScaleDetector),
            scanner.scan_timeout_ms == 10000,
            scanner.connection_timeout_ms == 5000,
        decreases scale_types@.len() - i,
    {
        proof {
            assert(names.take(i as int + 1).drop_last() =~= names.take(i as int));
            assert(names.take(i as int + 1).last() == scale_types@[i as int]@);
        }
        if str_equals(scale_types[i], "Bookoo") {
            let ghost before = scanner.detectors@;
            scanner.register_detector(AnyScaleDetector::Bookoo(BookooScaleDetector));
            proof {
                let pushed = before.push(AnyScaleDetector::Bookoo(BookooScaleDetector));
                assert(crate::scales::scanner::all_bookoo(pushed));
                crate::scales::scanner::lemma_by_priority_uniform(pushed);
            }
        }
        i = i + 1;
    }
    proof {
        assert(names.take(names.len() as int) =~= names);
    }
    scanner
}

/// The text describing a connected scale: brand and model.
pub fn scale_info_text(info: &ScaleInfo) -> (r: String)
    ensures
        r@ == info.brand@ + " "@ + info.model@,
{
    String::from_str(info.brand.as_str()).concat(" ").concat(info.model.as_str())
}

} // verus!
