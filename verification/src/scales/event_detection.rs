//! Inferring scale events from the stream of readings: timer starts, stops
//! and resets, tare and timer button presses, and objects placed or removed.
//!
//! Weights are in centigrams, flows in centigrams per second, and the caller
//! supplies the time of each reading in milliseconds.

use vstd::prelude::*;
use crate::system::events::{ScaleButton, ScaleEvent};
use crate::types::{abs, elapsed_ms, elapsed_since, ScaleData};

verus! {

/// A weight change above this (1.0 g) breaks stability.
pub const WEIGHT_CHANGE_THRESHOLD_CG: i32 = 100;
/// No second button detection within this time.
pub const BUTTON_DEBOUNCE_MS: u64 = 500;
/// A timer that advances by less than this from its last value has just started.
pub const TIMER_RESTART_THRESHOLD_MS: u32 = 100;
/// A running timer without an update for this long is considered stopped.
pub const TIMER_STOP_THRESHOLD_MS: u32 = 30000;
/// A weight above this (5.0 g) means an object was placed.
pub const OBJECT_DETECTION_THRESHOLD_CG: i32 = 500;
/// A weight below this (2.0 g) means the object was removed.
pub const OBJECT_REMOVAL_THRESHOLD_CG: i32 = 200;
/// A weight stable for longer than this becomes the stable weight.
pub const STABILITY_PERIOD_MS: u64 = 1000;
/// No second object detection within this time.
pub const OBJECT_DEBOUNCE_MS: u64 = 1000;
/// Number of readings the history keeps.
pub const MAX_HISTORY_SIZE: usize = 50;

/// A reading with the time it was processed.
#[derive(Debug, Clone, Copy, PartialEq, Eq, Structural)]
pub struct DataPoint {
    pub data: ScaleData,
    pub timestamp_ms: u64,
}

/// What the detector remembers between readings, besides the history.
#[derive(Debug, Clone, Copy, PartialEq, Eq, Structural)]
pub struct DetectorState {
    pub last_timer_timestamp: Option<u32>,
    pub timer_running: bool,
    pub last_timer_update_ms: Option<u64>,
    pub last_stable_weight_cg: Option<i32>,
    pub weight_stable_since_ms: Option<u64>,
    pub last_weight_change_ms: Option<u64>,
    pub last_button_detection_ms: Option<u64>,
    pub object_present: bool,
    pub last_object_change_ms: Option<u64>,
}

/// The state of a fresh detector.
pub open spec fn initial_detector_state() -> DetectorState {
    DetectorState {
        last_timer_timestamp: None,
        timer_running: false,
        last_timer_update_ms: None,
        last_stable_weight_cg: None,
        weight_stable_since_ms: None,
        last_weight_change_ms: None,
        last_button_detection_ms: None,
        object_present: false,
        last_object_change_ms: None,
    }
}

/// The history after recording a point: the oldest point goes once the
/// history holds more than its capacity.
pub open spec fn history_after(h: Seq<DataPoint>, p: DataPoint) -> Seq<DataPoint> {
    if h.push(p).len() > MAX_HISTORY_SIZE { h.push(p).drop_first() } else { h.push(p) }
}

/// Timer transitions read from the scale's timestamp, before the timeout check.
pub open spec fn timer_transition(st: DetectorState, ts: u32, now: u64) -> (DetectorState, Seq<ScaleEvent>) {
    match st.last_timer_timestamp {
        Some(last) => {
            let delta = if ts > last { ts - last } else { ts as int };
            if !st.timer_running && ts > 0 && delta < TIMER_RESTART_THRESHOLD_MS {
                (
                    DetectorState { timer_running: true, last_timer_update_ms: Some(now), ..st },
                    seq![ScaleEvent::TimerStarted { timestamp_ms: ts }],
                )
            } else if st.timer_running && (ts == 0 || ts == last) {
                (
                    DetectorState { timer_running: false, ..st },
                    seq![ScaleEvent::TimerStopped { timestamp_ms: ts }],
                )
            } else if ts < 1000 && last > 5000 {
                (
                    DetectorState { timer_running: ts > 0, ..st },
                    if ts > 0 {
                        seq![ScaleEvent::TimerReset, ScaleEvent::TimerStarted { timestamp_ms: ts }]
                    } else {
                        seq![ScaleEvent::TimerReset]
                    },
                )
            } else {
                (st, Seq::empty())
            }
        },
        None => if ts > 0 {
            (
                DetectorState { timer_running: true, last_timer_update_ms: Some(now), ..st },
                seq![ScaleEvent::TimerStarted { timestamp_ms: ts }],
            )
        } else {
            (st, Seq::empty())
        },
    }
}

/// Timer detection on one reading: the transition, then a running timer
/// without an update for longer than the stop threshold is stopped; the
/// timestamp is remembered.
pub open spec fn timer_step(st: DetectorState, ts: u32, now: u64) -> (DetectorState, Seq<ScaleEvent>) {
    let (s1, e1) = timer_transition(st, ts, now);
    let timed_out = s1.timer_running && match s1.last_timer_update_ms {
        Some(u) => elapsed_ms(now, u) > TIMER_STOP_THRESHOLD_MS,
        None => false,
    };
    let s2 = if timed_out { DetectorState { timer_running: false, ..s1 } } else { s1 };
    let e2 = if timed_out { seq![ScaleEvent::TimerStopped { timestamp_ms: ts }] } else { Seq::empty() };
    (DetectorState { last_timer_timestamp: Some(ts), ..s2 }, e1 + e2)
}

/// Weight tracking on one reading: a change above the threshold from the
/// stable weight breaks stability; a weight stable for longer than the
/// stability period becomes the stable weight. The first reading sets it.
pub open spec fn weight_step(st: DetectorState, w: i32, now: u64) -> DetectorState {
    match st.last_stable_weight_cg {
        Some(last) => if abs(w - last) > WEIGHT_CHANGE_THRESHOLD_CG {
            DetectorState { last_weight_change_ms: Some(now), weight_stable_since_ms: None, ..st }
        } else {
            match st.weight_stable_since_ms {
                None => DetectorState { weight_stable_since_ms: Some(now), ..st },
                Some(since) => if elapsed_ms(now, since) > STABILITY_PERIOD_MS {
                    DetectorState { last_stable_weight_cg: Some(w), ..st }
                } else {
                    st
                },
            }
        },
        None => DetectorState {
            last_stable_weight_cg: Some(w),
            weight_stable_since_ms: Some(now),
            ..st
        },
    }
}

/// Button inference on one reading, unless within the debounce time of the
/// last detection: a stable weight above 5 g dropping below 1 g without flow
/// is the tare button; a timer jumping to or from zero without flow is the
/// timer button.
pub open spec fn button_step(st: DetectorState, d: ScaleData, now: u64) -> (DetectorState, Seq<ScaleEvent>) {
    let debounced = match st.last_button_detection_ms {
        Some(t) => elapsed_ms(now, t) < BUTTON_DEBOUNCE_MS,
        None => false,
    };
    if debounced {
        (st, Seq::empty())
    } else {
        let tare = match st.last_stable_weight_cg {
            Some(last) => last > 500 && abs(d.weight_cg as int) < 100 && abs(
                d.flow_rate_cg_per_s as int,
            ) < 50,
            None => false,
        };
        let s1 = if tare { DetectorState { last_button_detection_ms: Some(now), ..st } } else { st };
        let e1 = if tare { seq![ScaleEvent::ButtonPressed(ScaleButton::Tare)] } else { Seq::empty() };
        let timer = match s1.last_timer_timestamp {
            Some(last) => ((d.timestamp_ms == 0 && last > 1000) || (d.timestamp_ms > 0 && last == 0))
                && abs(d.flow_rate_cg_per_s as int) < 50,
            None => false,
        };
        let s2 = if timer { DetectorState { last_button_detection_ms: Some(now), ..s1 } } else { s1 };
        let e2 = if timer { seq![ScaleEvent::ButtonPressed(ScaleButton::Timer)] } else { Seq::empty() };
        (s2, e1 + e2)
    }
}

/// Object inference on one reading, unless within the debounce time of the
/// last change: a weight above 5 g places an object, below 2 g removes it;
/// each change is reported with the reading.
pub open spec fn object_step(st: DetectorState, d: ScaleData, now: u64) -> (DetectorState, Seq<ScaleEvent>) {
    let debounced = match st.last_object_change_ms {
        Some(t) => elapsed_ms(now, t) < OBJECT_DEBOUNCE_MS,
        None => false,
    };
    if debounced {
        (st, Seq::empty())
    } else if !st.object_present && d.weight_cg > OBJECT_DETECTION_THRESHOLD_CG {
        (
            DetectorState { object_present: true, last_object_change_ms: Some(now), ..st },
            seq![ScaleEvent::WeightChanged { data: d }],
        )
    } else if st.object_present && d.weight_cg < OBJECT_REMOVAL_THRESHOLD_CG {
        (
            DetectorState { object_present: false, last_object_change_ms: Some(now), ..st },
            seq![ScaleEvent::WeightChanged { data: d }],
        )
    } else {
        (st, Seq::empty())
    }
}

/// One reading through all detections, in order: timer, weight, buttons,
/// objects.
pub open spec fn detection_step(st: DetectorState, d: ScaleData, now: u64) -> (DetectorState, Seq<ScaleEvent>) {
    let (s1, e1) = timer_step(st, d.timestamp_ms, now);
    let s2 = weight_step(s1, d.weight_cg, now);
    let (s3, e3) = button_step(s2, d, now);
    let (s4, e4) = object_step(s3, d, now);
    (s4, e1 + e3 + e4)
}

/// Points processed after `cutoff`.
pub open spec fn newer_than(cutoff: int) -> spec_fn(DataPoint) -> bool {
    |p: DataPoint| p.timestamp_ms > cutoff
}

/// Infers scale events from readings.
#[derive(Debug)]
pub struct ScaleEventDetector {
    history: Vec<DataPoint>,
    st: DetectorState,
}

impl ScaleEventDetector {
    /// The readings remembered, oldest first.
    pub closed spec fn history_view(&self) -> Seq<DataPoint> {
        self.history@
    }

    /// The remembered detection state.
    pub closed spec fn detector_state(&self) -> DetectorState {
        self.st
    }

    /// A detector that has seen nothing.
    pub fn new() -> (r: Self)
        ensures
            r.history_view() == Seq::<DataPoint>::empty(),
            r.detector_state() == initial_detector_state(),
    {
        ScaleEventDetector {
            history: Vec::new(),
            st: DetectorState {
                last_timer_timestamp: None,
                timer_running: false,
                last_timer_update_ms: None,
                last_stable_weight_cg: None,
                weight_stable_since_ms: None,
                last_weight_change_ms: None,
                last_button_detection_ms: None,
                object_present: false,
                last_object_change_ms: None,
            },
        }
    }

    /// Processes one reading at `now_ms` and returns the events it shows.
    pub fn process_data(&mut self, data: &ScaleData, now_ms: u64) -> (r: Vec<ScaleEvent>)
        ensures
            final(self).history_view() == history_after(
                old(self).history_view(),
                DataPoint { data: *data, timestamp_ms: now_ms },
            ),
            (final(self).detector_state(), r@) == detection_step(old(self).detector_state(), *data, now_ms),
    {
        self.add_to_history(*data, now_ms);
        let mut events = self.detect_timer_events(data, now_ms);
        self.detect_weight_events(data, now_ms);
        let mut buttons = self.detect_button_events(data, now_ms);
        let mut objects = self.detect_object_events(data, now_ms);
        events.append(&mut buttons);
        events.append(&mut objects);
        events
    }

    /// Records a reading, dropping the oldest beyond the capacity.
    fn add_to_history(&mut self, data: ScaleData, now_ms: u64)
        ensures
            final(self).history@ == history_after(old(self).history@, DataPoint { data, timestamp_ms: now_ms }),
            final(self).st == old(self).st,
    {
        self.history.push(DataPoint { data, timestamp_ms: now_ms });
        if self.history.len() > MAX_HISTORY_SIZE {
            self.history.remove(0);
        }
    }

    /// Timer detection.
    fn detect_timer_events(&mut self, data: &ScaleData, now_ms: u64) -> (r: Vec<ScaleEvent>)
        ensures
            (final(self).st, r@) == timer_step(old(self).st, data.timestamp_ms, now_ms),
            final(self).history == old(self).history,
    {
        let ts = data.timestamp_ms;
        let mut events: Vec<ScaleEvent> = Vec::new();
        match self.st.last_timer_timestamp {
            Some(last) => {
                let delta = if ts > last { ts - last } else { ts };
                if !self.st.timer_running && ts > 0 && delta < TIMER_RESTART_THRESHOLD_MS {
                    self.st.timer_running = true;
                    self.st.last_timer_update_ms = Some(now_ms);
                    events.push(ScaleEvent::TimerStarted { timestamp_ms: ts });
                } else if self.st.timer_running && (ts == 0 || ts == last) {
                    self.st.timer_running = false;
                    events.push(ScaleEvent::TimerStopped { timestamp_ms: ts });
                } else if ts < 1000 && last > 5000 {
                    self.st.timer_running = ts > 0;
                    events.push(ScaleEvent::TimerReset);
                    if ts > 0 {
                        events.push(ScaleEvent::TimerStarted { timestamp_ms: ts });
                    }
                }
            },
            None => {
                if ts > 0 {
                    self.st.timer_running = true;
                    self.st.last_timer_update_ms = Some(now_ms);
                    events.push(ScaleEvent::TimerStarted { timestamp_ms: ts });
                }
            },
        }
        let ghost e1 = events@;
        if self.st.timer_running {
            match self.st.last_timer_update_ms {
                Some(u) => {
                    if elapsed_since(now_ms, u) > TIMER_STOP_THRESHOLD_MS as u64 {
                        self.st.timer_running = false;
                        events.push(ScaleEvent::TimerStopped { timestamp_ms: ts });
                    }
                },
                None => {},
            }
        }
        self.st.last_timer_timestamp = Some(ts);
        proof {
            let (s1, x1) = timer_transition(old(self).st, ts, now_ms);
            assert(e1 =~= x1);
            assert(events@ =~= timer_step(old(self).st, ts, now_ms).1);
        }
        events
    }

    /// Weight tracking.
    fn detect_weight_events(&mut self, data: &ScaleData, now_ms: u64)
        ensures
            final(self).st == weight_step(old(self).st, data.weight_cg, now_ms),
            final(self).history == old(self).history,
    {
        let w = data.weight_cg;
        match self.st.last_stable_weight_cg {
            Some(last) => {
                let change: i64 = if (w as i64) >= (last as i64) {
                    w as i64 - last as i64
                } else {
                    last as i64 - w as i64
                };
                if change > WEIGHT_CHANGE_THRESHOLD_CG as i64 {
                    self.st.last_weight_change_ms = Some(now_ms);
                    self.st.weight_stable_since_ms = None;
                } else {
                    match self.st.weight_stable_since_ms {
                        None => {
                            self.st.weight_stable_since_ms = Some(now_ms);
                        },
                        Some(since) => {
                            if elapsed_since(now_ms, since) > STABILITY_PERIOD_MS {
                                self.st.last_stable_weight_cg = Some(w);
                            }
                        },
                    }
                }
            },
            None => {
                self.st.last_stable_weight_cg = Some(w);
                self.st.weight_stable_since_ms = Some(now_ms);
            },
        }
    }

    /// Button inference.
    fn detect_button_events(&mut self, data: &ScaleData, now_ms: u64) -> (r: Vec<ScaleEvent>)
        ensures
            (final(self).st, r@) == button_step(old(self).st, *data, now_ms),
            final(self).history == old(self).history,
    {
        let mut events: Vec<ScaleEvent> = Vec::new();
        match self.st.last_button_detection_ms {
            Some(t) => {
                if elapsed_since(now_ms, t) < BUTTON_DEBOUNCE_MS {
                    return events;
                }
            },
            None => {},
        }
        let w = data.weight_cg as i64;
        let f = data.flow_rate_cg_per_s as i64;
        let w_abs: i64 = if w < 0 { -w } else { w };
        let f_abs: i64 = if f < 0 { -f } else { f };
        match self.st.last_stable_weight_cg {
            Some(last) => {
                if last > 500 && w_abs < 100 && f_abs < 50 {
                    self.st.last_button_detection_ms = Some(now_ms);
                    events.push(ScaleEvent::ButtonPressed(ScaleButton::Tare));
                }
            },
            None => {},
        }
        let ghost e1 = events@;
        match self.st.last_timer_timestamp {
            Some(last) => {
                if (data.timestamp_ms == 0 && last > 1000) || (data.timestamp_ms > 0 && last == 0) {
                    if f_abs < 50 {
                        self.st.last_button_detection_ms = Some(now_ms);
                        events.push(ScaleEvent::ButtonPressed(ScaleButton::Timer));
                    }
                }
            },
            None => {},
        }
        proof {
            assert(events@ =~= button_step(old(self).st, *data, now_ms).1);
        }
        events
    }

    /// Object inference.
    fn detect_object_events(&mut self, data: &ScaleData, now_ms: u64) -> (r: Vec<ScaleEvent>)
        ensures
            (final(self).st, r@) == object_step(old(self).st, *data, now_ms),
            final(self).history == old(self).history,
    {
        let mut events: Vec<ScaleEvent> = Vec::new();
        match self.st.last_object_change_ms {
            Some(t) => {
                if elapsed_since(now_ms, t) < OBJECT_DEBOUNCE_MS {
                    return events;
                }
            },
            None => {},
        }
        if !self.st.object_present && data.weight_cg > OBJECT_DETECTION_THRESHOLD_CG {
            self.st.object_present = true;
            self.st.last_object_change_ms = Some(now_ms);
            events.push(ScaleEvent::WeightChanged { data: *data });
        } else if self.st.object_present && data.weight_cg < OBJECT_REMOVAL_THRESHOLD_CG {
            self.st.object_present = false;
            self.st.last_object_change_ms = Some(now_ms);
            events.push(ScaleEvent::WeightChanged { data: *data });
        }
        proof {
            assert(events@ =~= object_step(old(self).st, *data, now_ms).1);
        }
        events
    }

    /// The readings processed strictly after `now_ms - duration_ms`, oldest
    /// first.
    pub fn get_recent_history(&self, duration_ms: u64, now_ms: u64) -> (r: Vec<DataPoint>)
        requires
            duration_ms <= now_ms,
        ensures
            r@ == self.history_view().filter(newer_than(now_ms - duration_ms)),
    {
        let cutoff = now_ms - duration_ms;
        let mut out: Vec<DataPoint> = Vec::new();
        let mut i: usize = 0;
        while i < self.history.len()
            invariant
                i <= self.history@.len(),
                cutoff == now_ms - duration_ms,
                out@ == self.history@.take(i as int).filter(newer_than(cutoff as int)),
            decreases self.history@.len() - i,
        {
            let p = self.history[i];
            proof {
                assert(self.history@.take(i as int + 1) =~= self.history@.take(i as int).push(p));
                self.history@.take(i as int).lemma_filter_push(p, newer_than(cutoff as int));
            }
            if p.timestamp_ms > cutoff {
                out.push(p);
            }
            i = i + 1;
        }
        proof {
            assert(self.history@.take(self.history@.len() as int) =~= self.history@);
        }
        out
    }

    /// Forgets everything.
    pub fn reset(&mut self)
        ensures
            final(self).history_view() == Seq::<DataPoint>::empty(),
            final(self).detector_state() == initial_detector_state(),
    {
        *self = Self::new();
    }

    /// Whether a timer is believed running.
    pub fn is_timer_running(&self) -> (r: bool)
        ensures
            r == self.detector_state().timer_running,
    {
        self.st.timer_running
    }

    /// The stable weight, in centigrams.
    pub fn get_stable_weight(&self) -> (r: Option<i32>)
        ensures
            r == self.detector_state().last_stable_weight_cg,
    {
        self.st.last_stable_weight_cg
    }
}

/// A way of turning readings into events.
pub trait ScaleEventDetectionStrategy {
    /// Processes one reading at `now_ms` and returns the events it shows.
    fn process_data(&mut self, data: &ScaleData, now_ms: u64) -> Vec<ScaleEvent>;

    /// Forgets everything.
    fn reset(&mut self);
}

impl ScaleEventDetectionStrategy for ScaleEventDetector {
    fn process_data(&mut self, data: &ScaleData, now_ms: u64) -> (r: Vec<ScaleEvent>)
        ensures
            (final(self).detector_state(), r@) == detection_step(old(self).detector_state(), *data, now_ms),
    {
        ScaleEventDetector::process_data(self, data, now_ms)
    }

    fn reset(&mut self)
        ensures
            final(self).detector_state() == initial_detector_state(),
    {
        ScaleEventDetector::reset(self)
    }
}

/// Timer events: starts, stops and resets.
pub open spec fn is_timer_event(e: ScaleEvent) -> bool {
    e is TimerStarted || e is TimerStopped || e is TimerReset
}

/// Button events.
pub open spec fn is_button_event(e: ScaleEvent) -> bool {
    e is ButtonPressed
}

/// Weight change events.
pub open spec fn is_weight_event(e: ScaleEvent) -> bool {
    e is WeightChanged
}

/// Which kind of event a strategy keeps.
#[derive(Debug, Clone, Copy, PartialEq, Eq, Structural)]
pub enum EventKind {
    Timer,
    Button,
    Weight,
}

/// Whether `e` is of kind `k`.
pub open spec fn of_kind(k: EventKind) -> spec_fn(ScaleEvent) -> bool {
    |e: ScaleEvent| match k {
        EventKind::Timer => is_timer_event(e),
        EventKind::Button => is_button_event(e),
        EventKind::Weight => is_weight_event(e),
    }
}

/// The events of `events` of kind `k`, in order.
fn keep_kind(events: Vec<ScaleEvent>, k: EventKind) -> (r: Vec<ScaleEvent>)
    ensures
        r@ == events@.filter(of_kind(k)),
{
    let mut events = events;
    let ghost all = events@;
    let total = events.len();
    let mut out: Vec<ScaleEvent> = Vec::new();
    let mut i: usize = 0;
    while events.len() > 0
        invariant
            i + events@.len() == all.len(),
            all.len() == total,
            events@ == all.skip(i as int),
            out@ == all.take(i as int).filter(of_kind(k)),
        decreases events@.len(),
    {
        let e = events.remove(0);
        let keep = match e {
            ScaleEvent::TimerStarted { .. } => k == EventKind::Timer,
            ScaleEvent::TimerStopped { .. } => k == EventKind::Timer,
            ScaleEvent::TimerReset => k == EventKind::Timer,
            ScaleEvent::ButtonPressed(_) => k == EventKind::Button,
            ScaleEvent::WeightChanged { .. } => k == EventKind::Weight,
            _ => false,
        };
        proof {
            assert(e == all[i as int]);
            assert(all.take(i as int + 1) =~= all.take(i as int).push(e));
            all.take(i as int).lemma_filter_push(e, of_kind(k));
        }
        if keep {
            out.push(e);
        }
        i = i + 1;
        proof {
            assert(events@ =~= all.skip(i as int));
        }
    }
    proof {
        assert(all.take(i as int) =~= all);
    }
    out
}

/// Reports only timer events.
#[derive(Debug)]
pub struct TimerDetectionStrategy {
    pub detector: ScaleEventDetector,
}

/// Reports only button events.
#[derive(Debug)]
pub struct ButtonDetectionStrategy {
    pub detector: ScaleEventDetector,
}

/// Reports only weight change events.
#[derive(Debug)]
pub struct WeightDetectionStrategy {
    pub detector: ScaleEventDetector,
}

impl TimerDetectionStrategy {
    /// A strategy over a fresh detector.
    pub fn new() -> (r: Self)
        ensures
            r.detector.detector_state() == initial_detector_state(),
    {
        TimerDetectionStrategy { detector: ScaleEventDetector::new() }
    }
}

impl ButtonDetectionStrategy {
    /// A strategy over a fresh detector.
    pub fn new() -> (r: Self)
        ensures
            r.detector.detector_state() == initial_detector_state(),
    {
        ButtonDetectionStrategy { detector: ScaleEventDetector::new() }
    }
}

impl WeightDetectionStrategy {
    /// A strategy over a fresh detector.
    pub fn new() -> (r: Self)
        ensures
            r.detector.detector_state() == initial_detector_state(),
    {
        WeightDetectionStrategy { detector: ScaleEventDetector::new() }
    }
}

impl ScaleEventDetectionStrategy for TimerDetectionStrategy {
    fn process_data(&mut self, data: &ScaleData, now_ms: u64) -> (r: Vec<ScaleEvent>)
        ensures
            final(self).detector.detector_state() == detection_step(old(self).detector.detector_state(), *data, now_ms).0,
            r@ == detection_step(old(self).detector.detector_state(), *data, now_ms).1.filter(of_kind(EventKind::Timer)),
    {
        let all = self.detector.process_data(data, now_ms);
        keep_kind(all, EventKind::Timer)
    }

    fn reset(&mut self)
        ensures
            final(self).detector.detector_state() == initial_detector_state(),
    {
        self.detector.reset();
    }
}

impl ScaleEventDetectionStrategy for ButtonDetectionStrategy {
    fn process_data(&mut self, data: &ScaleData, now_ms: u64) -> (r: Vec<ScaleEvent>)
        ensures
            final(self).detector.detector_state() == detection_step(old(self).detector.detector_state(), *data, now_ms).0,
            r@ == detection_step(old(self).detector.detector_state(), *data, now_ms).1.filter(of_kind(EventKind::Button)),
    {
        let all = self.detector.process_data(data, now_ms);
        keep_kind(all, EventKind::Button)
    }

    fn reset(&mut self)
        ensures
            final(self).detector.detector_state() == initial_detector_state(),
    {
        self.detector.reset();
    }
}

impl ScaleEventDetectionStrategy for WeightDetectionStrategy {
    fn process_data(&mut self, data: &ScaleData, now_ms: u64) -> (r: Vec<ScaleEvent>)
        ensures
            final(self).detector.detector_state() == detection_step(old(self).detector.detector_state(), *data, now_ms).0,
            r@ == detection_step(old(self).detector.detector_state(), *data, now_ms).1.filter(of_kind(EventKind::Weight)),
    {
        let all = self.detector.process_data(data, now_ms);
        keep_kind(all, EventKind::Weight)
    }

    fn reset(&mut self)
        ensures
            final(self).detector.detector_state() == initial_detector_state(),
    {
        self.detector.reset();
    }
}

/// A running timer whose timestamp drops to zero is reported stopped first,
/// and the detector no longer believes it runs.
pub proof fn law_zeroed_timer_reports_stop(st: DetectorState, d: ScaleData, now: u64)
    requires
        st.timer_running,
        (st.last_timer_timestamp is Some),
        d.timestamp_ms == 0,
    ensures
        detection_step(st, d, now).1.len() >= 1,
        detection_step(st, d, now).1[0] == (ScaleEvent::TimerStopped { timestamp_ms: 0 }),
        !detection_step(st, d, now).0.timer_running,
{
    let (s1, e1) = timer_step(st, d.timestamp_ms, now);
    let s2 = weight_step(s1, d.weight_cg, now);
    let (s3, e3) = button_step(s2, d, now);
    let (s4, e4) = object_step(s3, d, now);
    assert(e1[0] == ScaleEvent::TimerStopped { timestamp_ms: 0 });
    assert((e1 + e3 + e4)[0] == e1[0]);
}

/// The first reading with a running timestamp reports the timer started.
pub proof fn law_first_timestamp_reports_start(st: DetectorState, d: ScaleData, now: u64)
    requires
        (st.last_timer_timestamp is None),
        d.timestamp_ms > 0,
    ensures
        detection_step(st, d, now).1.len() >= 1,
        detection_step(st, d, now).1[0] == (ScaleEvent::TimerStarted { timestamp_ms: d.timestamp_ms }),
        detection_step(st, d, now).0.last_timer_timestamp == Some(d.timestamp_ms),
{
    let (s1, e1) = timer_step(st, d.timestamp_ms, now);
    let s2 = weight_step(s1, d.weight_cg, now);
    let (s3, e3) = button_step(s2, d, now);
    let (s4, e4) = object_step(s3, d, now);
    assert(e1[0] == ScaleEvent::TimerStarted { timestamp_ms: d.timestamp_ms });
    assert((e1 + e3 + e4)[0] == e1[0]);
}

} // verus!
