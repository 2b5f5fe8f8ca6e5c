//! The controller around the brewing state machine.

use vstd::prelude::*;
use crate::bounded::{output_items, outputs_clear, outputs_new, weights_clear};
use crate::brewing::laws::{law_brewing_exit_turns_relay_off, law_state_change_reported_once};
use crate::brewing::states::{
    brew_step, dispatch, emit, default_context_view, opush, BrewContext, BrewContextView, BrewInput,
    BrewOutput, BrewState, SystemState,
};
use crate::text::{
    bool_text, decimal, fixed1_of_hundredths, fixed1_of_tenths, push_bool, push_decimal,
    push_fixed1_of_hundredths, push_fixed1_of_tenths, push_signed_decimal, push_text,
    signed_decimal,
};
use crate::types::{elapsed_ms, elapsed_since, AutoTareState};

verus! {

/// One input handled by the controller: outputs of the previous input are
/// dropped, the state takes one step, a change of state is reported last, and
/// the outputs are handed out (leaving the context without outputs).
#[verifier::opaque]
pub open spec fn controller_step(
    state: SystemState,
    v: BrewContextView,
    input: BrewInput,
    now_ms: u64,
) -> (SystemState, BrewContextView, Seq<BrewOutput>) {
    let v0 = BrewContextView { outputs: Seq::empty(), ..v };
    let (s2, v2) = brew_step(state, v0, input, now_ms);
    let outs = if state != s2 {
        opush(v2.outputs, BrewOutput::StateChanged { from: state, to: s2 })
    } else {
        v2.outputs
    };
    (s2, BrewContextView { outputs: Seq::empty(), ..v2 }, outs)
}

proof fn lemma_controller_step(
    state: SystemState,
    v: BrewContextView,
    v0: BrewContextView,
    input: BrewInput,
    now_ms: u64,
    next: SystemState,
    v2: BrewContextView,
)
    requires
        v0 == (BrewContextView { outputs: Seq::empty(), ..v }),
        (next, v2) == brew_step(state, v0, input, now_ms),
    ensures
        controller_step(state, v, input, now_ms) == (
            next,
            BrewContextView { outputs: Seq::empty(), ..v2 },
            if state != next { opush(v2.outputs, BrewOutput::StateChanged { from: state, to: next }) } else { v2.outputs },
        ),
{
    reveal(controller_step);
}

#[verifier::rlimit(50)]
fn controller_handle(ctx: &mut BrewContext, state: SystemState, input: BrewInput, now_ms: u64) -> (r: (SystemState, heapless::Vec<BrewOutput, 10>))
    requires
        old(ctx)@.wf(),
    ensures
        final(ctx)@.wf(),
        (r.0, final(ctx)@, output_items(r.1)) == controller_step(state, old(ctx)@, input, now_ms),
{
    let ghost v = ctx@;
    outputs_clear(&mut ctx.outputs);
    let ghost v0 = ctx@;
    assert(v0 == BrewContextView { outputs: Seq::empty(), ..v });
    let next = dispatch(ctx, state, &input, now_ms);
    let ghost v2 = ctx@;
    assert((next, v2) == brew_step(state, v0, input, now_ms));
    if state != next {
        emit(ctx, BrewOutput::StateChanged { from: state, to: next });
    }
    let ghost v3 = ctx@;
    assert(v3 == (if state != next { v2.emit(BrewOutput::StateChanged { from: state, to: next }) } else { v2 }));
    let mut out = outputs_new();
    std::mem::swap(&mut out, &mut ctx.outputs);
    assert(output_items(out) == (if state != next { opush(v2.outputs, BrewOutput::StateChanged { from: state, to: next }) } else { v2.outputs }));
    assert(ctx@ == BrewContextView { outputs: Seq::empty(), ..v2 });
    proof {
        lemma_controller_step(state, v, v0, input, now_ms, next, v2);
    }
    (next, out)
}

/// The brewing state machine and its context.
pub struct BrewController {
    state: SystemState,
    context: BrewContext,
}

impl View for BrewController {
    type V = (SystemState, BrewContextView);

    closed spec fn view(&self) -> (SystemState, BrewContextView) {
        (self.state, self.context@)
    }
}

impl BrewController {
    /// The context keeps its learning state within range.
    pub open spec fn wf(&self) -> bool {
        self@.1.wf()
    }

    /// A controller in the `BleDisabled` state with the start-up context.
    pub fn new() -> (r: Self)
        ensures
            r.wf(),
            r@ == (SystemState::BleDisabled, default_context_view()),
    {
        BrewController { state: SystemState::BleDisabled, context: BrewContext::default() }
    }

    /// Processes one input at time `now_ms` and returns the outputs it
    /// produced.
    #[verifier::rlimit(100)]
    pub fn handle_input(&mut self, input: BrewInput, now_ms: u64) -> (r: heapless::Vec<BrewOutput, 10>)
        requires
            old(self).wf(),
        ensures
            final(self).wf(),
            final(self)@.0 == controller_step(old(self)@.0, old(self)@.1, input, now_ms).0,
            final(self)@.1 == controller_step(old(self)@.0, old(self)@.1, input, now_ms).1,
            output_items(r) == controller_step(old(self)@.0, old(self)@.1, input, now_ms).2,
            output_items(r).len() <= 10,
            old(self)@.0 == SystemState::Brewing && final(self)@.0 != SystemState::Brewing ==> output_items(r).contains(
                BrewOutput::RelayOff,
            ),
            final(self)@.0 != old(self)@.0 <==> output_items(r).len() > 0 && output_items(r).last()
                == (BrewOutput::StateChanged { from: old(self)@.0, to: final(self)@.0 }),
    {
        proof {
            law_brewing_exit_turns_relay_off(self@.1, input, now_ms);
            law_state_change_reported_once(self@.0, self@.1, input, now_ms);
        }
        let (next, out) = controller_handle(&mut self.context, self.state, input, now_ms);
        self.state = next;
        out
    }

    /// Current state of the machine.
    pub fn get_system_state(&self) -> (r: SystemState)
        ensures
            r == self@.0,
    {
        self.state
    }

    /// Brewing state of the older interface: `Idle` outside brewing.
    pub fn get_state(&self) -> (r: BrewState)
        ensures
            r == match self@.0 {
                SystemState::Brewing => BrewState::Brewing,
                SystemState::Settling => BrewState::Settling,
                _ => BrewState::Idle,
            },
    {
        match self.state {
            SystemState::Idle => BrewState::Idle,
            SystemState::Brewing => BrewState::Brewing,
            SystemState::Settling => BrewState::Settling,
            _ => BrewState::Idle,
        }
    }

    /// Sets the target weight (centigrams).
    pub fn set_target_weight(&mut self, weight_cg: i32)
        requires
            old(self).wf(),
        ensures
            final(self).wf(),
            final(self)@ == (old(self)@.0, BrewContextView { target_weight_cg: weight_cg, ..old(self)@.1 }),
    {
        self.context.target_weight_cg = weight_cg;
    }

    /// The context, for display and diagnostics.
    pub fn get_context(&self) -> (r: &BrewContext)
        ensures
            r@ == self@.1,
    {
        &self.context
    }

    /// Whether the settling period ran out: more than the settling timeout
    /// since settling started.
    pub open spec fn settling_timed_out(&self, now_ms: u64) -> bool {
        self@.1.settle_start_time_ms matches Some(t) && elapsed_ms(now_ms, t) > self@.1.settling_timeout_ms
    }

    /// Called periodically: once settling ran out, handles a
    /// `SettlingTimeout`; otherwise nothing happens.
    pub fn check_settling_timeout(&mut self, now_ms: u64) -> (r: heapless::Vec<BrewOutput, 10>)
        requires
            old(self).wf(),
        ensures
            final(self).wf(),
            old(self).settling_timed_out(now_ms) ==> (final(self)@.0, final(self)@.1, output_items(r))
                == controller_step(old(self)@.0, old(self)@.1, BrewInput::SettlingTimeout, now_ms),
            !old(self).settling_timed_out(now_ms) ==> final(self)@ == old(self)@ && output_items(r) == Seq::<BrewOutput>::empty(),
    {
        if let Some(settle_start) = self.context.settle_start_time_ms {
            if elapsed_since(now_ms, settle_start) > self.context.settling_timeout_ms {
                return self.handle_input(BrewInput::SettlingTimeout, now_ms);
            }
        }
        outputs_new()
    }

    /// Emergency stop.
    pub fn emergency_stop(&mut self, now_ms: u64) -> (r: heapless::Vec<BrewOutput, 10>)
        requires
            old(self).wf(),
        ensures
            final(self).wf(),
            (final(self)@.0, final(self)@.1, output_items(r)) == controller_step(old(self)@.0, old(self)@.1, BrewInput::EmergencyStop, now_ms),
    {
        self.handle_input(BrewInput::EmergencyStop, now_ms)
    }

    /// Releases (`true`) or engages (`false`) the killswitch.
    pub fn set_system_enabled(&mut self, enabled: bool, now_ms: u64) -> (r: heapless::Vec<BrewOutput, 10>)
        requires
            old(self).wf(),
        ensures
            final(self).wf(),
            (final(self)@.0, final(self)@.1, output_items(r)) == controller_step(
                old(self)@.0,
                old(self)@.1,
                if enabled { BrewInput::EnableSystem } else { BrewInput::DisableSystem },
                now_ms,
            ),
    {
        if enabled {
            self.handle_input(BrewInput::EnableSystem, now_ms)
        } else {
            self.handle_input(BrewInput::DisableSystem, now_ms)
        }
    }

    /// Whether the killswitch is released.
    pub fn is_system_enabled(&self) -> (r: bool)
        ensures
            r == self@.1.system_enabled,
    {
        self.context.system_enabled
    }

    /// Turns auto-tare on or off (acted on while idle).
    pub fn set_auto_tare_enabled(&mut self, enabled: bool, now_ms: u64) -> (r: heapless::Vec<BrewOutput, 10>)
        requires
            old(self).wf(),
        ensures
            final(self).wf(),
            (final(self)@.0, final(self)@.1, output_items(r)) == controller_step(
                old(self)@.0,
                old(self)@.1,
                if enabled { BrewInput::AutoTareEnabled } else { BrewInput::AutoTareDisabled },
                now_ms,
            ),
    {
        if enabled {
            self.handle_input(BrewInput::AutoTareEnabled, now_ms)
        } else {
            self.handle_input(BrewInput::AutoTareDisabled, now_ms)
        }
    }

    pub fn is_auto_tare_enabled(&self) -> (r: bool)
        ensures
            r == self@.1.auto_tare_enabled,
    {
        self.context.auto_tare_enabled
    }

    pub fn get_auto_tare_state(&self) -> (r: AutoTareState)
        ensures
            r == self@.1.auto_tare_state,
    {
        self.context.auto_tare_state
    }

    /// Resets the auto-tare detector to an empty scale without history.
    pub fn reset_auto_tare(&mut self)
        requires
            old(self).wf(),
        ensures
            final(self).wf(),
            final(self)@ == (old(self)@.0, BrewContextView {
                auto_tare_state: AutoTareState::Empty,
                auto_tare_weight_history: Seq::empty(),
                auto_tare_stable_weight_cg: 0,
                ..old(self)@.1
            }),
    {
        self.context.auto_tare_state = AutoTareState::Empty;
        weights_clear(&mut self.context.auto_tare_weight_history);
        self.context.auto_tare_stable_weight_cg = 0;
    }

    /// Resets the overshoot learning (acted on while idle).
    pub fn reset_overshoot(&mut self, now_ms: u64) -> (r: heapless::Vec<BrewOutput, 10>)
        requires
            old(self).wf(),
        ensures
            final(self).wf(),
            (final(self)@.0, final(self)@.1, output_items(r)) == controller_step(old(self)@.0, old(self)@.1, BrewInput::OvershootReset, now_ms),
    {
        self.handle_input(BrewInput::OvershootReset, now_ms)
    }

    /// Learned stop delay in milliseconds.
    pub fn get_overshoot_delay_ms(&self) -> (r: i32)
        ensures
            r == self@.1.overshoot_stop_delay_ms,
    {
        self.context.overshoot_stop_delay_ms
    }

    /// Moving average of the overshoot (cg), confidence (thousandths) and
    /// number of learned brews.
    pub fn get_overshoot_stats(&self) -> (r: (i64, u32, u32))
        ensures
            r == (self@.1.overshoot_ewma_cg, self@.1.overshoot_confidence_permille, self@.1.overshoot_brew_count),
    {
        (
            self.context.overshoot_ewma_cg,
            self.context.overshoot_confidence_permille,
            self.context.overshoot_brew_count,
        )
    }

    /// Learning is ready after three brews with a confidence above 0.2.
    pub fn is_overshoot_learning_ready(&self) -> (r: bool)
        ensures
            r == (self@.1.overshoot_brew_count >= 3 && self@.1.overshoot_confidence_permille > 200),
    {
        self.context.overshoot_brew_count >= 3 && self.context.overshoot_confidence_permille > 200
    }

    /// The learning state as one line: delay, moving average in grams,
    /// confidence in percent, learned brews and readiness.
    pub fn get_overshoot_learning_info(&self) -> (r: String)
        ensures
            r@ == "Learning: delay="@ + signed_decimal(self@.1.overshoot_stop_delay_ms as int) + "ms, ewma="@
                + fixed1_of_hundredths(self@.1.overshoot_ewma_cg as int) + "g, confidence="@
                + fixed1_of_tenths(self@.1.overshoot_confidence_permille as nat) + "%, brews="@
                + decimal(self@.1.overshoot_brew_count as nat) + ", ready="@ + bool_text(
                self@.1.overshoot_brew_count >= 3 && self@.1.overshoot_confidence_permille > 200,
            ),
    {
        let mut s = String::from_str("Learning: delay=");
        push_signed_decimal(&mut s, self.context.overshoot_stop_delay_ms);
        push_text(&mut s, "ms, ewma=");
        push_fixed1_of_hundredths(&mut s, self.context.overshoot_ewma_cg);
        push_text(&mut s, "g, confidence=");
        push_fixed1_of_tenths(&mut s, self.context.overshoot_confidence_permille as u64);
        push_text(&mut s, "%, brews=");
        push_decimal(&mut s, self.context.overshoot_brew_count as u64);
        push_text(&mut s, ", ready=");
        let ready = self.is_overshoot_learning_ready();
        push_bool(&mut s, ready);
        s
    }
}

} // verus!
