//! Persistent brew settings and statistics: their defaults and how learning
//! updates, brews and resets change them. Storing them is the caller's work.
//!
//! Weights are in centigrams and the learning confidence in permille.

use vstd::prelude::*;
use crate::brewing::learning::div_trunc;
use crate::types::abs;

verus! {

/// Version of the stored layout.
pub const SETTINGS_VERSION: u8 = 1;
/// Stop delay before any learning.
pub const DEFAULT_OVERSHOOT_DELAY_MS: i32 = 500;

/// The settings kept across restarts.
#[derive(Debug, Clone, Copy, PartialEq, Eq, Structural)]
pub struct BrewSettings {
    pub version: u8,
    pub target_weight_cg: i32,
    pub auto_tare: bool,
    pub predictive_stop: bool,
    pub overshoot_delay_ms: i32,
    pub overshoot_ewma_cg: i64,
    pub learning_confidence_permille: u32,
    pub last_updated_ms: u64,
    pub created_at_ms: u64,
}

/// Statistics of the brews made.
#[derive(Debug, Clone, Copy, PartialEq, Eq, Structural)]
pub struct BrewStatistics {
    pub version: u8,
    pub total_brews: u32,
    pub successful_predictions: u32,
    pub total_predictions: u32,
    pub average_overshoot_cg: i64,
    pub best_delay_ms: i32,
    pub worst_overshoot_cg: i64,
    pub total_brewing_time_ms: u64,
    pub last_brew_timestamp_ms: u64,
}

/// Default settings created at `now_ms`: a 36 g target, auto-tare and
/// predictive stopping on, a 500 ms delay and nothing learned.
pub open spec fn default_settings(now_ms: u64) -> BrewSettings {
    BrewSettings {
        version: SETTINGS_VERSION,
        target_weight_cg: 3600,
        auto_tare: true,
        predictive_stop: true,
        overshoot_delay_ms: DEFAULT_OVERSHOOT_DELAY_MS,
        overshoot_ewma_cg: 0,
        learning_confidence_permille: 0,
        last_updated_ms: now_ms,
        created_at_ms: now_ms,
    }
}

/// Statistics before any brew.
pub open spec fn default_statistics() -> BrewStatistics {
    BrewStatistics {
        version: SETTINGS_VERSION,
        total_brews: 0,
        successful_predictions: 0,
        total_predictions: 0,
        average_overshoot_cg: 0,
        best_delay_ms: DEFAULT_OVERSHOOT_DELAY_MS,
        worst_overshoot_cg: 0,
        total_brewing_time_ms: 0,
        last_brew_timestamp_ms: 0,
    }
}

impl BrewSettings {
    /// Default settings created at `now_ms`.
    pub fn new_default(now_ms: u64) -> (r: Self)
        ensures
            r == default_settings(now_ms),
    {
        BrewSettings {
            version: SETTINGS_VERSION,
            target_weight_cg: 3600,
            auto_tare: true,
            predictive_stop: true,
            overshoot_delay_ms: DEFAULT_OVERSHOOT_DELAY_MS,
            overshoot_ewma_cg: 0,
            learning_confidence_permille: 0,
            last_updated_ms: now_ms,
            created_at_ms: now_ms,
        }
    }
}

impl Default for BrewStatistics {
    /// Statistics before any brew.
    fn default() -> (r: Self)
        ensures
            r == default_statistics(),
    {
        BrewStatistics {
            version: SETTINGS_VERSION,
            total_brews: 0,
            successful_predictions: 0,
            total_predictions: 0,
            average_overshoot_cg: 0,
            best_delay_ms: DEFAULT_OVERSHOOT_DELAY_MS,
            worst_overshoot_cg: 0,
            total_brewing_time_ms: 0,
            last_brew_timestamp_ms: 0,
        }
    }
}

/// Settings with new learning results, stamped `now_ms`.
pub fn update_overshoot_learning(
    settings: BrewSettings,
    delay_ms: i32,
    ewma_cg: i64,
    confidence_permille: u32,
    now_ms: u64,
) -> (r: BrewSettings)
    ensures
        r == (BrewSettings {
            overshoot_delay_ms: delay_ms,
            overshoot_ewma_cg: ewma_cg,
            learning_confidence_permille: confidence_permille,
            last_updated_ms: now_ms,
            ..settings
        }),
{
    BrewSettings {
        overshoot_delay_ms: delay_ms,
        overshoot_ewma_cg: ewma_cg,
        learning_confidence_permille: confidence_permille,
        last_updated_ms: now_ms,
        ..settings
    }
}

/// Statistics after one more brew with overshoot `overshoot_cg` at
/// `now_ms`: counts grow, the average takes the new brew in (truncating),
/// and the overshoot furthest from zero is kept.
pub open spec fn recorded(
    s: BrewStatistics,
    overshoot_cg: i64,
    prediction_used: bool,
    prediction_successful: bool,
    now_ms: u64,
) -> BrewStatistics {
    let n = s.total_brews + 1;
    BrewStatistics {
        total_brews: n as u32,
        last_brew_timestamp_ms: now_ms,
        total_predictions: if prediction_used { (s.total_predictions + 1) as u32 } else { s.total_predictions },
        successful_predictions: if prediction_used && prediction_successful {
            (s.successful_predictions + 1) as u32
        } else {
            s.successful_predictions
        },
        average_overshoot_cg: div_trunc(s.average_overshoot_cg * (n - 1) + overshoot_cg, n) as i64,
        worst_overshoot_cg: if abs(overshoot_cg as int) > abs(s.worst_overshoot_cg as int) {
            overshoot_cg
        } else {
            s.worst_overshoot_cg
        },
        ..s
    }
}

/// Records a completed brew.
pub fn record_brew(
    stats: BrewStatistics,
    overshoot_cg: i64,
    prediction_used: bool,
    prediction_successful: bool,
    now_ms: u64,
) -> (r: BrewStatistics)
    requires
        stats.total_brews < u32::MAX,
        prediction_used ==> stats.total_predictions < u32::MAX,
        prediction_used && prediction_successful ==> stats.successful_predictions < u32::MAX,
        overshoot_cg > i64::MIN,
        stats.worst_overshoot_cg > i64::MIN,
    ensures
        r == recorded(stats, overshoot_cg, prediction_used, prediction_successful, now_ms),
{
    let n: u32 = stats.total_brews + 1;
    let total_predictions = if prediction_used { stats.total_predictions + 1 } else { stats.total_predictions };
    let successful_predictions = if prediction_used && prediction_successful {
        stats.successful_predictions + 1
    } else {
        stats.successful_predictions
    };
    let m: i128 = n as i128 - 1;
    let a: i128 = stats.average_overshoot_cg as i128;
    proof {
        assert(-0x8000_0000_0000_0000_0000_0000int <= a * m <= 0x8000_0000_0000_0000_0000_0000int) by (nonlinear_arith)
            requires
                -0x8000_0000_0000_0000int <= a <= 0x8000_0000_0000_0000int,
                0 <= m < 0x1_0000_0000int,
        ;
    }
    let sum: i128 = a * m + overshoot_cg as i128;
    let avg128: i128 = if sum >= 0 { sum / (n as i128) } else { -((-sum) / (n as i128)) };
    proof {
        assert(avg128 == div_trunc(sum as int, n as int));
        let a = stats.average_overshoot_cg as int;
        let x = overshoot_cg as int;
        let k = n as int;
        assert(i64::MIN <= div_trunc(a * (k - 1) + x, k) <= i64::MAX) by (nonlinear_arith)
            requires
                k >= 1,
                i64::MIN <= a <= i64::MAX,
                i64::MIN < x <= i64::MAX,
                a * (k - 1) + x >= 0 ==> div_trunc(a * (k - 1) + x, k) == (a * (k - 1) + x) / k,
                a * (k - 1) + x < 0 ==> div_trunc(a * (k - 1) + x, k) == -((-(a * (k - 1) + x)) / k),
        ;
    }
    let ov_abs: i64 = if overshoot_cg < 0 { -overshoot_cg } else { overshoot_cg };
    let worst_abs: i64 = if stats.worst_overshoot_cg < 0 { -stats.worst_overshoot_cg } else { stats.worst_overshoot_cg };
    let worst = if ov_abs > worst_abs { overshoot_cg } else { stats.worst_overshoot_cg };
    BrewStatistics {
        total_brews: n,
        last_brew_timestamp_ms: now_ms,
        total_predictions,
        successful_predictions,
        average_overshoot_cg: avg128 as i64,
        worst_overshoot_cg: worst,
        ..stats
    }
}

/// Learning reset: default settings (keeping the target weight) and fresh
/// statistics.
pub fn reset_learning_data(settings: BrewSettings, now_ms: u64) -> (r: (BrewSettings, BrewStatistics))
    ensures
        r.0 == (BrewSettings { target_weight_cg: settings.target_weight_cg, ..default_settings(now_ms) }),
        r.1 == default_statistics(),
{
    let mut fresh = BrewSettings::new_default(now_ms);
    fresh.target_weight_cg = settings.target_weight_cg;
    (fresh, BrewStatistics::default())
}

} // verus!
