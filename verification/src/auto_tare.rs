//! Auto-tare: detects a cup being placed on the scale and asks for a tare once
//! it has settled, without taring when it is taken off again.

use vstd::prelude::*;
use crate::bounded::{weight_items, weights_clear, weights_get, weights_len, weights_new, weights_push, weights_remove_first};
use crate::types::{abs, elapsed_ms, elapsed_since, AutoTareState, BrewState, ScaleData, TARE_COOLDOWN_MS, TARE_STABILITY_COUNT, TARE_STABILITY_THRESHOLD_CG};

verus! {

/// Length of the cooldown after brewing during which no auto-tare happens.
pub const BREWING_TARE_COOLDOWN_MS: u64 = 10000;
/// A stable reading this far from the object's weight means the cup was swapped (10 g).
pub const CUP_SWAP_THRESHOLD_CG: i64 = 1000;
/// The average of the last three readings this far from the object's weight
/// means the cup is being lifted (5 g, compared as a sum of three).
pub const UNLOADING_THRESHOLD_SUM3_CG: i64 = 1500;

/// The history after a new reading: the oldest of ten readings makes room.
pub open spec fn history_push(h: Seq<i32>, w: i32) -> Seq<i32> {
    if h.len() >= 10 { h.drop_first().push(w) } else { h.push(w) }
}

/// The last `needed` readings of `h` lie within the stability threshold of
/// each other; a history shorter than `needed` is not stable.
pub open spec fn window_stable(h: Seq<i32>, needed: nat) -> bool {
    &&& h.len() >= needed
    &&& forall|i: int, j: int|
        h.len() - needed <= i < h.len() && h.len() - needed <= j < h.len() ==> #[trigger] h[i]
            - #[trigger] h[j] <= TARE_STABILITY_THRESHOLD_CG
}

/// While the weight is moving, whether the recent average (of the last three
/// readings, or the current one when fewer are known) is more than 5 g away
/// from the object's weight.
pub open spec fn recent_avg_deviates(h: Seq<i32>, w: i32, sw: i32) -> bool {
    if h.len() >= 3 {
        abs(h[h.len() - 1] + h[h.len() - 2] + h[h.len() - 3] - 3 * sw) > UNLOADING_THRESHOLD_SUM3_CG
    } else {
        abs(w - sw) > 500
    }
}

/// One step of the auto-tare state machine: the next state, the next object
/// weight and whether to tare now, given whether the reading `w` is stable and
/// whether it counts as an empty scale.
pub open spec fn auto_tare_transition(
    state: AutoTareState,
    sw: i32,
    h: Seq<i32>,
    stable: bool,
    empty: bool,
    w: i32,
) -> (AutoTareState, i32, bool) {
    match state {
        AutoTareState::Empty => {
            if !empty && stable {
                (AutoTareState::StableObject, w, true)
            } else if !empty {
                (AutoTareState::Loading, sw, false)
            } else {
                (AutoTareState::Empty, sw, false)
            }
        },
        AutoTareState::Loading => {
            if stable {
                if empty {
                    (AutoTareState::Empty, 0i32, false)
                } else {
                    (AutoTareState::StableObject, w, true)
                }
            } else {
                (AutoTareState::Loading, sw, false)
            }
        },
        AutoTareState::StableObject => {
            if empty && stable {
                (AutoTareState::Empty, 0i32, false)
            } else if stable && abs(w - sw) > CUP_SWAP_THRESHOLD_CG {
                (AutoTareState::Empty, 0i32, false)
            } else if !stable && recent_avg_deviates(h, w, sw) {
                (AutoTareState::Unloading, sw, false)
            } else {
                (AutoTareState::StableObject, sw, false)
            }
        },
        AutoTareState::Unloading => {
            if stable {
                if empty {
                    (AutoTareState::Empty, 0i32, false)
                } else {
                    (AutoTareState::StableObject, w, true)
                }
            } else {
                (AutoTareState::Unloading, sw, false)
            }
        },
    }
}

/// A reading counts as an empty scale when its magnitude is within the threshold.
pub open spec fn is_empty_reading(w: i32, threshold: i32) -> bool {
    abs(w as int) <= threshold
}

/// Auto-tare is held back within 10 s of the end of a brew and within 2 s of
/// the last tare.
pub open spec fn in_tare_cooldown(
    brewing_cooldown: Option<u64>,
    last_tare: Option<u64>,
    now_ms: u64,
) -> bool {
    ||| (brewing_cooldown matches Some(c) && elapsed_ms(now_ms, c) < BREWING_TARE_COOLDOWN_MS)
    ||| (last_tare matches Some(t) && elapsed_ms(now_ms, t) < TARE_COOLDOWN_MS)
}

/// Whether either cooldown holds auto-tare back.
pub fn tare_cooldown_active(brewing_cooldown: Option<u64>, last_tare: Option<u64>, now_ms: u64) -> (r: bool)
    ensures
        r == in_tare_cooldown(brewing_cooldown, last_tare, now_ms),
{
    if let Some(c) = brewing_cooldown {
        if elapsed_since(now_ms, c) < BREWING_TARE_COOLDOWN_MS {
            return true;
        }
    }
    if let Some(t) = last_tare {
        if elapsed_since(now_ms, t) < TARE_COOLDOWN_MS {
            return true;
        }
    }
    false
}

/// Adds a reading to a history of at most ten, dropping the oldest when full.
pub fn push_weight_history(h: &mut heapless::Vec<i32, 10>, w: i32)
    ensures
        weight_items(*final(h)) == history_push(weight_items(*old(h)), w),
{
    if weights_len(h) >= 10 {
        weights_remove_first(h);
    }
    let r = weights_push(h, w);
    proof {
        assert(r is Ok);
    }
}

/// Whether the last `needed` readings lie within 0.5 g of each other (the
/// spread between the largest and the smallest of them).
pub fn history_window_stable(h: &heapless::Vec<i32, 10>, needed: usize) -> (r: bool)
    ensures
        r == window_stable(weight_items(*h), needed as nat),
{
    let len = weights_len(h);
    let ghost s = weight_items(*h);
    if len < needed {
        return false;
    }
    if needed == 0 {
        return true;
    }
    let start = len - needed;
    let mut max_w: i32 = weights_get(h, start);
    let mut min_w: i32 = max_w;
    let mut i: usize = start + 1;
    while i < len
        invariant
            s == weight_items(*h),
            len == s.len(),
            start < i <= len,
            forall|k: int| start <= k < i ==> min_w <= #[trigger] s[k] <= max_w,
            exists|k: int| start <= k < i && s[k] == max_w,
            exists|k: int| start <= k < i && s[k] == min_w,
        decreases len - i,
    {
        let x = weights_get(h, i);
        if x > max_w {
            max_w = x;
        }
        if x < min_w {
            min_w = x;
        }
        i = i + 1;
    }
    let r = (max_w as i64) - (min_w as i64) <= TARE_STABILITY_THRESHOLD_CG as i64;
    proof {
        let kmax = choose|k: int| start <= k < len && s[k] == max_w;
        let kmin = choose|k: int| start <= k < len && s[k] == min_w;
        if r {
            assert forall|a: int, b: int|
                s.len() - needed <= a < s.len() && s.len() - needed <= b < s.len() implies #[trigger] s[a]
                - #[trigger] s[b] <= TARE_STABILITY_THRESHOLD_CG by {
                assert(min_w <= s[a] <= max_w);
                assert(min_w <= s[b] <= max_w);
            }
        } else {
            assert(s[kmax] - s[kmin] > TARE_STABILITY_THRESHOLD_CG);
        }
    }
    r
}

/// Executable form of [`auto_tare_transition`], shared by the stand-alone
/// controller and the brewing state machine.
pub fn auto_tare_decide(
    state: AutoTareState,
    sw: i32,
    h: &heapless::Vec<i32, 10>,
    stable: bool,
    empty: bool,
    w: i32,
) -> (r: (AutoTareState, i32, bool))
    ensures
        r == auto_tare_transition(state, sw, weight_items(*h), stable, empty, w),
{
    match state {
        AutoTareState::Empty => {
            if !empty && stable {
                (AutoTareState::StableObject, w, true)
            } else if !empty {
                (AutoTareState::Loading, sw, false)
            } else {
                (AutoTareState::Empty, sw, false)
            }
        },
        AutoTareState::Loading => {
            if stable {
                if empty {
                    (AutoTareState::Empty, 0, false)
                } else {
                    (AutoTareState::StableObject, w, true)
                }
            } else {
                (AutoTareState::Loading, sw, false)
            }
        },
        AutoTareState::StableObject => {
            let diff = (w as i64) - (sw as i64);
            let abs_diff = if diff < 0 { -diff } else { diff };
            if empty && stable {
                (AutoTareState::Empty, 0, false)
            } else if stable && abs_diff > CUP_SWAP_THRESHOLD_CG {
                (AutoTareState::Empty, 0, false)
            } else if !stable {
                let len = weights_len(h);
                let deviates = if len >= 3 {
                    let sum3 = (weights_get(h, len - 1) as i64) + (weights_get(h, len - 2) as i64)
                        + (weights_get(h, len - 3) as i64);
                    let d = sum3 - 3 * (sw as i64);
                    let ad = if d < 0 { -d } else { d };
                    ad > UNLOADING_THRESHOLD_SUM3_CG
                } else {
                    abs_diff > 500
                };
                if deviates {
                    (AutoTareState::Unloading, sw, false)
                } else {
                    (AutoTareState::StableObject, sw, false)
                }
            } else {
                (AutoTareState::StableObject, sw, false)
            }
        },
        AutoTareState::Unloading => {
            if stable {
                if empty {
                    (AutoTareState::Empty, 0, false)
                } else {
                    (AutoTareState::StableObject, w, true)
                }
            } else {
                (AutoTareState::Unloading, sw, false)
            }
        },
    }
}

/// Whether a reading counts as an empty scale.
pub fn reading_is_empty(w: i32, threshold: i32) -> (r: bool)
    ensures
        r == is_empty_reading(w, threshold),
{
    let wa: i64 = if w < 0 { -(w as i64) } else { w as i64 };
    wa <= threshold as i64
}

/// Default weight under which the scale counts as empty (2 g).
pub const EMPTY_THRESHOLD_CG: i32 = 200;

/// Stand-alone auto-tare controller, fed with every weight reading.
pub struct AutoTareController {
    enabled: bool,
    state: AutoTareState,
    stable_weight_cg: i32,
    weight_history: heapless::Vec<i32, 10>,
    last_tare_time_ms: Option<u64>,
    empty_threshold_cg: i32,
    stable_readings_needed: usize,
    brewing_cooldown_time_ms: Option<u64>,
}

/// The mathematical state of an [`AutoTareController`].
pub struct AutoTareView {
    pub enabled: bool,
    pub state: AutoTareState,
    pub stable_weight_cg: i32,
    pub history: Seq<i32>,
    pub last_tare_time_ms: Option<u64>,
    pub empty_threshold_cg: i32,
    pub stable_readings_needed: usize,
    pub brewing_cooldown_time_ms: Option<u64>,
}

impl View for AutoTareController {
    type V = AutoTareView;

    closed spec fn view(&self) -> AutoTareView {
        AutoTareView {
            enabled: self.enabled,
            state: self.state,
            stable_weight_cg: self.stable_weight_cg,
            history: weight_items(self.weight_history),
            last_tare_time_ms: self.last_tare_time_ms,
            empty_threshold_cg: self.empty_threshold_cg,
            stable_readings_needed: self.stable_readings_needed,
            brewing_cooldown_time_ms: self.brewing_cooldown_time_ms,
        }
    }
}

/// What one reading does to an auto-tare controller, and whether it tares.
///
/// Nothing happens while auto-tare is disabled, the timer runs, a brew is in
/// progress or a cooldown holds. Otherwise the reading joins the history and
/// the state machine takes one step.
pub open spec fn auto_tare_step(
    v: AutoTareView,
    w: i32,
    brew_state: BrewState,
    timer_running: bool,
    now_ms: u64,
) -> (AutoTareView, bool) {
    if !v.enabled || timer_running || brew_state != BrewState::Idle || in_tare_cooldown(
        v.brewing_cooldown_time_ms,
        v.last_tare_time_ms,
        now_ms,
    ) {
        (v, false)
    } else {
        let h = history_push(v.history, w);
        let stable = window_stable(h, v.stable_readings_needed as nat);
        let empty = is_empty_reading(w, v.empty_threshold_cg);
        let t = auto_tare_transition(v.state, v.stable_weight_cg, h, stable, empty, w);
        (AutoTareView { history: h, state: t.0, stable_weight_cg: t.1, ..v }, t.2)
    }
}

impl AutoTareController {
    /// A fresh controller: enabled, scale empty, readings compared five at a
    /// time, 2 g counting as empty.
    pub fn new() -> (r: Self)
        ensures
            r@.enabled,
            r@.state == AutoTareState::Empty,
            r@.stable_weight_cg == 0,
            r@.history == Seq::<i32>::empty(),
            r@.last_tare_time_ms is None,
            r@.empty_threshold_cg == EMPTY_THRESHOLD_CG,
            r@.stable_readings_needed == TARE_STABILITY_COUNT,
            r@.brewing_cooldown_time_ms is None,
    {
        AutoTareController {
            enabled: true,
            state: AutoTareState::Empty,
            stable_weight_cg: 0,
            weight_history: weights_new(),
            last_tare_time_ms: None,
            empty_threshold_cg: EMPTY_THRESHOLD_CG,
            stable_readings_needed: TARE_STABILITY_COUNT,
            brewing_cooldown_time_ms: None,
        }
    }

    /// Main auto-tare logic, called on every weight reading: whether the scale
    /// should be tared now.
    ///
    /// A tare is only ever asked for when the detector settles on an object:
    /// the new state is `StableObject`, holding the current (non-empty) reading.
    pub fn should_auto_tare(
        &mut self,
        scale_data: &ScaleData,
        brew_state: BrewState,
        timer_running: bool,
        now_ms: u64,
    ) -> (r: bool)
        ensures
            (final(self)@, r) == auto_tare_step(
                old(self)@,
                scale_data.weight_cg,
                brew_state,
                timer_running,
                now_ms,
            ),
            r ==> final(self)@.state == AutoTareState::StableObject && final(self)@.stable_weight_cg
                == scale_data.weight_cg && !is_empty_reading(scale_data.weight_cg, old(self)@.empty_threshold_cg),
    {
        if !self.enabled || timer_running || brew_state != BrewState::Idle {
            return false;
        }
        if tare_cooldown_active(self.brewing_cooldown_time_ms, self.last_tare_time_ms, now_ms) {
            return false;
        }
        let current_weight = scale_data.weight_cg;
        let is_stable = self.is_weight_stable(current_weight);
        let is_empty = reading_is_empty(current_weight, self.empty_threshold_cg);
        let (next_state, next_weight, tare) = auto_tare_decide(
            self.state,
            self.stable_weight_cg,
            &self.weight_history,
            is_stable,
            is_empty,
            current_weight,
        );
        self.state = next_state;
        self.stable_weight_cg = next_weight;
        tare
    }

    /// Adds the reading to the history and tells whether the last five
    /// readings lie within 0.5 g of each other.
    fn is_weight_stable(&mut self, current_weight: i32) -> (r: bool)
        ensures
            final(self)@ == (AutoTareView { history: history_push(old(self)@.history, current_weight), ..old(self)@ }),
            r == window_stable(final(self)@.history, old(self)@.stable_readings_needed as nat),
    {
        push_weight_history(&mut self.weight_history, current_weight);
        history_window_stable(&self.weight_history, self.stable_readings_needed)
    }

    /// Remembers that a tare happened now.
    pub fn record_tare(&mut self, now_ms: u64)
        ensures
            final(self)@ == (AutoTareView { last_tare_time_ms: Some(now_ms), ..old(self)@ }),
    {
        self.last_tare_time_ms = Some(now_ms);
    }

    pub fn get_state(&self) -> (r: AutoTareState)
        ensures
            r == self@.state,
    {
        self.state
    }

    pub fn set_enabled(&mut self, enabled: bool)
        ensures
            final(self)@ == (AutoTareView { enabled, ..old(self)@ }),
    {
        self.enabled = enabled;
    }

    pub fn is_enabled(&self) -> (r: bool)
        ensures
            r == self@.enabled,
    {
        self.enabled
    }

    /// Back to an empty scale with no history.
    pub fn reset(&mut self)
        ensures
            final(self)@ == (AutoTareView {
                state: AutoTareState::Empty,
                history: Seq::<i32>::empty(),
                stable_weight_cg: 0,
                ..old(self)@
            }),
    {
        self.state = AutoTareState::Empty;
        weights_clear(&mut self.weight_history);
        self.stable_weight_cg = 0;
    }

    /// Called when returning to idle after brewing: starts a 10 s cooldown and
    /// keeps a cup that is still on the scale as the current object, without
    /// taring it again.
    pub fn brewing_finished(&mut self, current_weight: i32, now_ms: u64)
        ensures
            final(self)@.brewing_cooldown_time_ms == Some(now_ms),
            current_weight > old(self)@.empty_threshold_cg ==> final(self)@ == (AutoTareView {
                brewing_cooldown_time_ms: Some(now_ms),
                state: AutoTareState::StableObject,
                stable_weight_cg: current_weight,
                history: Seq::<i32>::empty(),
                ..old(self)@
            }),
            current_weight <= old(self)@.empty_threshold_cg ==> final(self)@ == (AutoTareView {
                brewing_cooldown_time_ms: Some(now_ms),
                state: AutoTareState::Empty,
                stable_weight_cg: 0,
                ..old(self)@
            }),
    {
        self.brewing_cooldown_time_ms = Some(now_ms);
        if current_weight > self.empty_threshold_cg {
            self.state = AutoTareState::StableObject;
            self.stable_weight_cg = current_weight;
            weights_clear(&mut self.weight_history);
        } else {
            self.state = AutoTareState::Empty;
            self.stable_weight_cg = 0;
        }
    }
}

/// A new object that settles is tared exactly once: with auto-tare enabled,
/// the machine idle, the timer stopped and no cooldown, a stable reading that
/// is not empty tares the scale and becomes the remembered weight whenever
/// the detector was not already settled on an object (empty, loading, or
/// unloading after a cup was lifted or swapped); once settled, no reading
/// tares again.
pub proof fn law_settled_object_tared_once(v: AutoTareView, w: i32, now_ms: u64)
    ensures
        ({
            let (v2, tare) = auto_tare_step(v, w, BrewState::Idle, false, now_ms);
            &&& (v.enabled && !in_tare_cooldown(v.brewing_cooldown_time_ms, v.last_tare_time_ms, now_ms)
                && v.state != AutoTareState::StableObject && window_stable(
                history_push(v.history, w),
                v.stable_readings_needed as nat,
            ) && !is_empty_reading(w, v.empty_threshold_cg)) ==> tare && v2.state == AutoTareState::StableObject
                && v2.stable_weight_cg == w
            &&& v.state == AutoTareState::StableObject ==> !tare
            &&& tare ==> v2.state == AutoTareState::StableObject && v2.stable_weight_cg == w && !is_empty_reading(
                w,
                v.empty_threshold_cg,
            )
        }),
{
}

} // verus!
