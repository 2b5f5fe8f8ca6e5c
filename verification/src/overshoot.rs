//! Stand-alone overshoot compensation: learns how long before the target the
//! machine has to be stopped from the overshoot seen after predicted stops.

use vstd::prelude::*;
use crate::bounded::{overshoot_items, overshoots_clear, overshoots_get, overshoots_len, overshoots_new, overshoots_push, overshoots_remove_first};
use crate::types::OVERSHOOT_HISTORY_SIZE;

verus! {

/// Delay the learning starts from.
pub const INITIAL_STOP_DELAY_MS: i32 = 500;
/// Below this flow (0.5 g/s) the flow counts as stopped.
pub const FLOW_STOPPED_CG_PER_S: i64 = 50;

/// Sum of a sequence of overshoots.
pub open spec fn seq_sum(s: Seq<i64>) -> int
    decreases s.len(),
{
    if s.len() == 0 { 0 } else { seq_sum(s.drop_last()) + s.last() }
}

/// The overshoot history after a new measurement, keeping the most recent
/// `max` of them.
pub open spec fn bounded_history_push(h: Seq<i64>, max: nat, x: i64) -> Seq<i64> {
    if h.len() >= max { h.drop_first().push(x) } else { h.push(x) }
}

/// Mathematical state of an [`OvershootController`].
pub struct OvershootView {
    pub stop_delay_ms: i32,
    pub history: Seq<i64>,
    pub pending_predicted_stop: bool,
}

pub struct OvershootController {
    stop_delay_ms: i32,
    overshoot_history: heapless::Vec<i64, 5>,
    pending_predicted_stop: bool,
    max_history_size: usize,
}

impl View for OvershootController {
    type V = OvershootView;

    closed spec fn view(&self) -> OvershootView {
        OvershootView {
            stop_delay_ms: self.stop_delay_ms,
            history: overshoot_items(self.overshoot_history),
            pending_predicted_stop: self.pending_predicted_stop,
        }
    }
}

/// The delay after a new average: 100 ms more when the average overshoot is
/// above 1 g, 100 ms less (but never below 100 ms) when it is below -1 g.
pub open spec fn adjusted_delay(delay: i32, h: Seq<i64>) -> int {
    if seq_sum(h) > 100 * h.len() {
        if delay as int + 100 > i32::MAX { i32::MAX as int } else { delay + 100 }
    } else if seq_sum(h) < -100 * h.len() {
        if delay - 100 > 100 { delay - 100 } else { 100 }
    } else {
        delay as int
    }
}

/// What recording an overshoot does: nothing without a pending predicted stop
/// or while the flow (in cg/s) is still at least 0.5 g/s; otherwise the
/// overshoot joins the last five and the delay follows their average.
pub open spec fn overshoot_record_step(v: OvershootView, actual: i32, target: i32, flow: i32) -> OvershootView {
    if !v.pending_predicted_stop || crate::types::abs(flow as int) >= FLOW_STOPPED_CG_PER_S {
        v
    } else {
        let h = bounded_history_push(v.history, OVERSHOOT_HISTORY_SIZE as nat, (actual - target) as i64);
        OvershootView { stop_delay_ms: adjusted_delay(v.stop_delay_ms, h) as i32, history: h, pending_predicted_stop: false }
    }
}

proof fn lemma_seq_sum_step(s: Seq<i64>, i: int)
    requires
        0 <= i < s.len(),
    ensures
        seq_sum(s.take(i + 1)) == seq_sum(s.take(i)) + s[i],
{
    assert(s.take(i + 1).drop_last() =~= s.take(i));
}

/// Sum of the overshoots held in a history.
pub fn overshoot_sum(h: &heapless::Vec<i64, 5>) -> (r: i128)
    ensures
        r == seq_sum(overshoot_items(*h)),
{
    let ghost s = overshoot_items(*h);
    let len = overshoots_len(h);
    let mut acc: i128 = 0;
    let mut i: usize = 0;
    while i < len
        invariant
            s == overshoot_items(*h),
            len == s.len(),
            len <= 5,
            i <= len,
            acc == seq_sum(s.take(i as int)),
            -(i as int) * 0x8000_0000_0000_0000 <= acc <= (i as int) * 0x8000_0000_0000_0000,
        decreases len - i,
    {
        proof {
            lemma_seq_sum_step(s, i as int);
        }
        acc = acc + overshoots_get(h, i) as i128;
        i = i + 1;
    }
    assert(s.take(len as int) =~= s);
    acc
}

impl OvershootController {
    /// The controller keeps at most five measurements.
    pub closed spec fn wf(&self) -> bool {
        &&& self.max_history_size == OVERSHOOT_HISTORY_SIZE
        &&& self.stop_delay_ms >= 100
    }

    /// Starts from a 500 ms delay with no measurements.
    pub fn new() -> (r: Self)
        ensures
            r.wf(),
            r@.stop_delay_ms == INITIAL_STOP_DELAY_MS,
            r@.history == Seq::<i64>::empty(),
            !r@.pending_predicted_stop,
    {
        OvershootController {
            stop_delay_ms: INITIAL_STOP_DELAY_MS,
            overshoot_history: overshoots_new(),
            pending_predicted_stop: false,
            max_history_size: OVERSHOOT_HISTORY_SIZE,
        }
    }

    /// Window, in milliseconds, in which a prediction may trigger a stop: from
    /// the learned delay plus a 200 ms margin up to three times that.
    pub fn calculate_prediction_window(&self) -> (r: (i64, i64))
        ensures
            r.0 == self@.stop_delay_ms + 200,
            r.1 == 3 * (self@.stop_delay_ms + 200),
    {
        let min_reaction = self.stop_delay_ms as i64 + 200;
        (min_reaction, min_reaction * 3)
    }

    /// Time to wait before stopping, in milliseconds, for a target that is
    /// `target_delay_ms` away: the learned delay is taken off, leaving at
    /// least 100 ms.
    pub fn get_compensated_delay(&self, target_delay_ms: i64) -> (r: i128)
        ensures
            r == if target_delay_ms - self@.stop_delay_ms > 100 { target_delay_ms - self@.stop_delay_ms } else { 100 },
    {
        let d = target_delay_ms as i128 - self.stop_delay_ms as i128;
        if d > 100 { d } else { 100 }
    }

    /// Marks that a predicted stop was initiated.
    pub fn mark_predicted_stop(&mut self)
        ensures
            old(self).wf() ==> final(self).wf(),
            final(self)@ == (OvershootView { pending_predicted_stop: true, ..old(self)@ }),
    {
        self.pending_predicted_stop = true;
    }

    /// Records the overshoot once the flow has stopped after a predicted stop,
    /// and adjusts the delay by the average of the last five overshoots.
    pub fn record_overshoot(&mut self, actual_weight_cg: i32, target_weight_cg: i32, flow_rate_cg_per_s: i32)
        requires
            old(self).wf(),
        ensures
            final(self).wf(),
            final(self)@ == overshoot_record_step(old(self)@, actual_weight_cg, target_weight_cg, flow_rate_cg_per_s),
    {
        if !self.pending_predicted_stop {
            return;
        }
        let flow_abs: i64 = if flow_rate_cg_per_s < 0 { -(flow_rate_cg_per_s as i64) } else { flow_rate_cg_per_s as i64 };
        if flow_abs >= FLOW_STOPPED_CG_PER_S {
            return;
        }
        self.pending_predicted_stop = false;
        let overshoot: i64 = actual_weight_cg as i64 - target_weight_cg as i64;
        if overshoots_len(&self.overshoot_history) >= self.max_history_size {
            overshoots_remove_first(&mut self.overshoot_history);
        }
        let pushed = overshoots_push(&mut self.overshoot_history, overshoot);
        proof {
            assert(pushed is Ok);
        }
        let sum = overshoot_sum(&self.overshoot_history);
        let n = overshoots_len(&self.overshoot_history) as i128;
        let limit: i128 = 100 * n;
        if sum > limit {
            self.stop_delay_ms = if self.stop_delay_ms > i32::MAX - 100 { i32::MAX } else { self.stop_delay_ms + 100 };
        } else if sum < -limit {
            let lowered = self.stop_delay_ms - 100;
            self.stop_delay_ms = if lowered > 100 { lowered } else { 100 };
        }
    }

    pub fn get_current_delay_ms(&self) -> (r: i32)
        ensures
            r == self@.stop_delay_ms,
    {
        self.stop_delay_ms
    }

    /// Back to a 500 ms delay, no measurements and no pending stop.
    pub fn reset(&mut self)
        ensures
            old(self).wf() ==> final(self).wf(),
            final(self)@ == (OvershootView {
                stop_delay_ms: INITIAL_STOP_DELAY_MS,
                history: Seq::<i64>::empty(),
                pending_predicted_stop: false,
            }),
    {
        overshoots_clear(&mut self.overshoot_history);
        self.stop_delay_ms = INITIAL_STOP_DELAY_MS;
        self.pending_predicted_stop = false;
    }
}

/// Timing of a stop decision.
#[derive(Debug, Clone, Copy, PartialEq, Eq)]
pub struct StopTiming {
    pub should_stop_now: bool,
    pub delay_ms: i32,
    pub predicted_final_weight_cg: i32,
}

} // verus!
