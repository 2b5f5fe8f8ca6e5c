//! The simple brew state machine driven by the scale's timer: idle, brewing,
//! and settling until the weight has had time to settle or the cup is taken
//! away.

use vstd::prelude::*;
use crate::types::{abs, elapsed_ms, elapsed_since, BrewState, ScaleData, TimerState, BREW_SETTLING_TIMEOUT_MS};

verus! {

/// A weight change above this (10 g) while settling means the cup was taken.
pub const CUP_REMOVED_CHANGE_CG: i32 = 1000;

/// A change of brew state.
#[derive(Debug, Clone, Copy, PartialEq, Eq, Structural)]
pub struct BrewStateTransition {
    pub from: BrewState,
    pub to: BrewState,
}

/// The timer-driven brew state machine.
#[derive(Debug, Clone, Copy, PartialEq, Eq, Structural)]
pub struct BrewStateMachine {
    pub state: BrewState,
    pub settle_start_time_ms: Option<u64>,
    pub last_weight_cg: Option<i32>,
}

/// One reading at `now`: a running timer starts (or resumes) brewing; a
/// stopped timer moves brewing to settling; settling ends after its timeout
/// or when the weight jumps by more than 10 g. The last weight is kept
/// while brewing or settling.
pub open spec fn machine_step(m: BrewStateMachine, d: ScaleData, timer: TimerState, now: u64) -> BrewStateMachine {
    match m.state {
        BrewState::Idle => if timer == TimerState::Running {
            BrewStateMachine { state: BrewState::Brewing, last_weight_cg: Some(d.weight_cg), ..m }
        } else {
            m
        },
        BrewState::Brewing => if timer != TimerState::Running {
            BrewStateMachine {
                state: BrewState::BrewSettling,
                settle_start_time_ms: Some(now),
                last_weight_cg: Some(d.weight_cg),
            }
        } else {
            BrewStateMachine { last_weight_cg: Some(d.weight_cg), ..m }
        },
        BrewState::BrewSettling => if timer == TimerState::Running {
            BrewStateMachine { state: BrewState::Brewing, settle_start_time_ms: None, ..m }
        } else if m.settle_start_time_ms matches Some(t) && elapsed_ms(now, t) > BREW_SETTLING_TIMEOUT_MS {
            BrewStateMachine { state: BrewState::Idle, settle_start_time_ms: None, ..m }
        } else if m.last_weight_cg matches Some(w) && abs(d.weight_cg - w) > CUP_REMOVED_CHANGE_CG {
            BrewStateMachine {
                state: BrewState::Idle,
                settle_start_time_ms: None,
                last_weight_cg: Some(d.weight_cg),
            }
        } else {
            BrewStateMachine { last_weight_cg: Some(d.weight_cg), ..m }
        },
    }
}

impl BrewStateMachine {
    /// Idle, with nothing remembered.
    pub fn new() -> (r: Self)
        ensures
            r == (BrewStateMachine { state: BrewState::Idle, settle_start_time_ms: None, last_weight_cg: None }),
    {
        BrewStateMachine { state: BrewState::Idle, settle_start_time_ms: None, last_weight_cg: None }
    }

    /// Processes one reading at `now_ms` with the current timer state and
    /// reports a change of state.
    pub fn update(&mut self, scale_data: &ScaleData, timer_state: TimerState, now_ms: u64) -> (r: Option<BrewStateTransition>)
        ensures
            *final(self) == machine_step(*old(self), *scale_data, timer_state, now_ms),
            r == (if final(self).state != old(self).state {
                Some(BrewStateTransition { from: old(self).state, to: final(self).state })
            } else {
                None
            }),
    {
        let previous = self.state;
        match self.state {
            BrewState::Idle => {
                if timer_state == TimerState::Running {
                    self.state = BrewState::Brewing;
                    self.last_weight_cg = Some(scale_data.weight_cg);
                }
            },
            BrewState::Brewing => {
                if timer_state != TimerState::Running {
                    self.state = BrewState::BrewSettling;
                    self.settle_start_time_ms = Some(now_ms);
                }
                self.last_weight_cg = Some(scale_data.weight_cg);
            },
            BrewState::BrewSettling => {
                self.handle_settling_state(scale_data, timer_state, now_ms);
            },
        }
        if self.state != previous {
            Some(BrewStateTransition { from: previous, to: self.state })
        } else {
            None
        }
    }

    /// Settling: back to brewing, timeout, cup removed, or keep settling.
    fn handle_settling_state(&mut self, scale_data: &ScaleData, timer_state: TimerState, now_ms: u64)
        requires
            old(self).state == BrewState::BrewSettling,
        ensures
            *final(self) == machine_step(*old(self), *scale_data, timer_state, now_ms),
    {
        if timer_state == TimerState::Running {
            self.state = BrewState::Brewing;
            self.settle_start_time_ms = None;
            return;
        }
        if let Some(settle_start) = self.settle_start_time_ms {
            if elapsed_since(now_ms, settle_start) > BREW_SETTLING_TIMEOUT_MS {
                self.state = BrewState::Idle;
                self.settle_start_time_ms = None;
                return;
            }
        }
        if let Some(last) = self.last_weight_cg {
            let change: i64 = if (scale_data.weight_cg as i64) >= (last as i64) {
                scale_data.weight_cg as i64 - last as i64
            } else {
                last as i64 - scale_data.weight_cg as i64
            };
            if change > CUP_REMOVED_CHANGE_CG as i64 {
                self.state = BrewState::Idle;
                self.settle_start_time_ms = None;
            }
        }
        self.last_weight_cg = Some(scale_data.weight_cg);
    }

    /// The current state.
    pub fn get_state(&self) -> (r: BrewState)
        ensures
            r == self.state,
    {
        self.state
    }

    /// Back to idle, forgetting everything.
    pub fn force_idle(&mut self)
        ensures
            *final(self) == (BrewStateMachine { state: BrewState::Idle, settle_start_time_ms: None, last_weight_cg: None }),
    {
        self.state = BrewState::Idle;
        self.settle_start_time_ms = None;
        self.last_weight_cg = None;
    }

    /// How far settling has progressed at `now_ms`, in permille of the
    /// settling time and at most 1000; nothing outside settling.
    pub fn get_settling_progress(&self, now_ms: u64) -> (r: Option<u32>)
        ensures
            r == (if self.state == BrewState::BrewSettling && self.settle_start_time_ms is Some {
                let p = elapsed_ms(now_ms, self.settle_start_time_ms->0) * 1000 / (BREW_SETTLING_TIMEOUT_MS as int);
                Some((if p > 1000 { 1000 } else { p }) as u32)
            } else {
                None
            }),
    {
        if self.state == BrewState::BrewSettling {
            if let Some(settle_start) = self.settle_start_time_ms {
                let elapsed = elapsed_since(now_ms, settle_start);
                if elapsed >= BREW_SETTLING_TIMEOUT_MS {
                    proof {
                        assert(elapsed * 1000 / 2000 >= 1000) by (nonlinear_arith)
                            requires elapsed >= 2000;
                    }
                    Some(1000)
                } else {
                    proof {
                        assert(elapsed * 1000 / 2000 < 1000) by (nonlinear_arith)
                            requires elapsed < 2000;
                    }
                    Some((elapsed * 1000 / BREW_SETTLING_TIMEOUT_MS) as u32)
                }
            } else {
                None
            }
        } else {
            None
        }
    }
}

/// The machine follows the timer: a running timer always means brewing; a
/// timer that stops during brewing always leads to settling; an idle machine
/// stays idle until the timer runs.
pub proof fn law_follows_timer(m: BrewStateMachine, d: ScaleData, timer: TimerState, now: u64)
    ensures
        timer == TimerState::Running ==> machine_step(m, d, timer, now).state == BrewState::Brewing,
        m.state == BrewState::Brewing && timer != TimerState::Running ==> machine_step(m, d, timer, now).state
            == BrewState::BrewSettling,
        m.state == BrewState::Idle && timer != TimerState::Running ==> machine_step(m, d, timer, now) == m,
{
}

} // verus!
