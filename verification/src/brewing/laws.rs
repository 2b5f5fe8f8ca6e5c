//! Properties of the brewing state machine that hold for every input.

use vstd::prelude::*;
use crate::brewing::controller::controller_step;
use crate::brewing::states::{
    brew_step, brewing_decide, brewing_scale_data, predictive_stop_due, spec_schedule_delayed_stop, time_to_target_ms, brewing_learn, brewing_predict, brewing_take_reading, spec_record_overshoot_learning, spec_should_auto_tare, step_ble_connecting, timer_starts, idle_scale_data, settling_scale_data, step_ble_disabled, step_ble_enabled,
    step_ble_scanning, step_brewing, step_idle, step_scale_disconnected, step_settling, step_system_disabled,
    BrewContextView, BrewInput, BrewOutput, SystemState,
};
use crate::auto_tare::{auto_tare_step, history_push, in_tare_cooldown, is_empty_reading, window_stable, AutoTareView};
use crate::overshoot::FLOW_STOPPED_CG_PER_S;
use crate::types::{abs, AutoTareState, BrewState as StatusBrewState, ScaleData};
use crate::system::events::UserEvent;

verus! {

/// Killswitch: while the system is disabled, every input other than
/// `EnableSystem` leaves it disabled, and the only output it can produce is
/// turning the relay off.
pub proof fn law_killswitch_ignores_inputs(v: BrewContextView, input: BrewInput, now_ms: u64)
    requires
        input != BrewInput::EnableSystem,
    ensures
        controller_step(SystemState::SystemDisabled, v, input, now_ms).0 == SystemState::SystemDisabled,
        forall|i: int|
            0 <= i < controller_step(SystemState::SystemDisabled, v, input, now_ms).2.len() ==> #[trigger] controller_step(
                SystemState::SystemDisabled,
                v,
                input,
                now_ms,
            ).2[i] == BrewOutput::RelayOff,
{
    reveal(controller_step);
    reveal(brew_step);
    let v0 = BrewContextView { outputs: Seq::empty(), ..v };
    assert(v0.emit(BrewOutput::RelayOff).outputs =~= seq![BrewOutput::RelayOff]);
}

/// Engaging the killswitch during a brew or while settling disables the
/// system and turns the relay off.
pub proof fn law_disable_turns_relay_off(state: SystemState, v: BrewContextView, now_ms: u64)
    requires
        state == SystemState::Brewing || state == SystemState::Settling,
    ensures
        controller_step(state, v, BrewInput::DisableSystem, now_ms).0 == SystemState::SystemDisabled,
        controller_step(state, v, BrewInput::DisableSystem, now_ms).2.contains(BrewOutput::RelayOff),
{
    reveal(controller_step);
    reveal(brew_step);
    let v0 = BrewContextView { outputs: Seq::empty(), ..v };
    let o = v0.emit(BrewOutput::SystemDisabled).emit(BrewOutput::RelayOff).outputs;
    assert(o[1] == BrewOutput::RelayOff);
    let outs = controller_step(state, v, BrewInput::DisableSystem, now_ms).2;
    assert(outs[1] == BrewOutput::RelayOff);
}

/// An emergency stop during a brew or while settling turns the relay off and
/// ends the brew.
pub proof fn law_emergency_stop_ends_brew(state: SystemState, v: BrewContextView, now_ms: u64)
    requires
        state == SystemState::Brewing || state == SystemState::Settling,
    ensures
        controller_step(state, v, BrewInput::EmergencyStop, now_ms).0 != SystemState::Brewing,
        controller_step(state, v, BrewInput::EmergencyStop, now_ms).0 != SystemState::Settling,
        controller_step(state, v, BrewInput::EmergencyStop, now_ms).2.contains(BrewOutput::RelayOff),
{
    reveal(controller_step);
    reveal(brew_step);
    let outs = controller_step(state, v, BrewInput::EmergencyStop, now_ms).2;
    assert(outs[0] == BrewOutput::RelayOff);
}

/// Every state the system can be in while enabled answers an emergency stop
/// by turning the relay off.
pub proof fn law_emergency_stop_relay_off(state: SystemState, v: BrewContextView, now_ms: u64)
    requires
        state == SystemState::BleDisabled || state == SystemState::BleEnabled || state == SystemState::BleScanning
            || state == SystemState::BleConnecting || state == SystemState::ScaleDisconnected || state
            == SystemState::Idle || state == SystemState::Brewing || state == SystemState::Settling,
    ensures
        controller_step(state, v, BrewInput::EmergencyStop, now_ms).2.contains(BrewOutput::RelayOff),
{
    reveal(controller_step);
    reveal(brew_step);
    let outs = controller_step(state, v, BrewInput::EmergencyStop, now_ms).2;
    assert(outs[0] == BrewOutput::RelayOff);
}

/// Losing the scale during a brew turns the relay off.
pub proof fn law_scale_loss_turns_relay_off(v: BrewContextView, now_ms: u64)
    ensures
        controller_step(SystemState::Brewing, v, BrewInput::ScaleDisconnected, now_ms).0 == SystemState::ScaleDisconnected,
        controller_step(SystemState::Brewing, v, BrewInput::ScaleDisconnected, now_ms).2.contains(BrewOutput::RelayOff),
{
    reveal(controller_step);
    reveal(brew_step);
    let outs = controller_step(SystemState::Brewing, v, BrewInput::ScaleDisconnected, now_ms).2;
    assert(outs[1] == BrewOutput::RelayOff);
}

/// A change of state is reported as the last output of the input that caused
/// it (unless the batch of ten outputs was already full).
pub proof fn law_state_change_reported(state: SystemState, v: BrewContextView, input: BrewInput, now_ms: u64)
    ensures
        controller_step(state, v, input, now_ms).0 != state ==> controller_step(state, v, input, now_ms).2.len() > 0
            && (controller_step(state, v, input, now_ms).2.last() == BrewOutput::StateChanged {
            from: state,
            to: controller_step(state, v, input, now_ms).0,
        } || controller_step(state, v, input, now_ms).2.len() >= 10),
{
    reveal(controller_step);
}

/// No output of the sequence switches the relay on.
pub open spec fn no_relay_on(s: Seq<BrewOutput>) -> bool {
    forall|i: int| 0 <= i < s.len() ==> #[trigger] s[i] != BrewOutput::RelayOn
}

proof fn lemma_emit_keeps_no_relay_on(v: BrewContextView, o: BrewOutput)
    requires
        no_relay_on(v.outputs),
        o != BrewOutput::RelayOn,
    ensures
        no_relay_on(v.emit(o).outputs),
{
    let s = v.emit(o).outputs;
    assert forall|i: int| 0 <= i < s.len() implies #[trigger] s[i] != BrewOutput::RelayOn by {
        if i < v.outputs.len() {
            assert(s[i] == v.outputs[i]);
        }
    }
}

pub broadcast proof fn lemma_emit_no_relay_on(v: BrewContextView, o: BrewOutput)
    requires
        no_relay_on(v.outputs),
        o != BrewOutput::RelayOn,
    ensures
        #[trigger] no_relay_on(v.emit(o).outputs),
{
    lemma_emit_keeps_no_relay_on(v, o);
}

proof fn lemma_auto_tare_no_relay_on(v: BrewContextView, w: i32, now_ms: u64)
    requires
        no_relay_on(v.outputs),
    ensures
        no_relay_on(spec_should_auto_tare(v, w, now_ms).0.outputs),
{
    broadcast use lemma_emit_no_relay_on;
}

proof fn lemma_idle_no_relay_on(v: BrewContextView, input: BrewInput, now_ms: u64)
    requires
        no_relay_on(v.outputs),
        !(input matches BrewInput::ScaleData(d) && timer_starts(v, d)),
    ensures
        no_relay_on(step_idle(v, input, now_ms).1.outputs),
{
    broadcast use lemma_emit_no_relay_on;
    match input {
        BrewInput::ScaleData(d) => {
            let v1 = BrewContextView { current_weight_cg: d.weight_cg, timer_running: d.timer_running, ..v }.emit(
                BrewOutput::DisplayUpdate,
            );
            lemma_auto_tare_no_relay_on(v1, d.weight_cg, now_ms);
        },
        _ => {},
    }
}

proof fn lemma_learning_no_relay_on(v: BrewContextView, d: ScaleData)
    requires
        no_relay_on(v.outputs),
    ensures
        no_relay_on(brewing_learn(v, d).outputs),
{
    broadcast use lemma_emit_no_relay_on;
    if v.overshoot_pending_predicted_stop {
        let o = (d.weight_cg - v.target_weight_cg) as i64;
        assert(no_relay_on(spec_record_overshoot_learning(v, o).outputs));
    }
}

proof fn lemma_predict_no_relay_on(v: BrewContextView, d: ScaleData, now_ms: u64)
    requires
        no_relay_on(v.outputs),
    ensures
        no_relay_on(brewing_predict(v, d, now_ms).outputs),
{
    broadcast use lemma_emit_no_relay_on;
}

proof fn lemma_decide_no_relay_on(v: BrewContextView, d: ScaleData, now_ms: u64)
    requires
        no_relay_on(v.outputs),
    ensures
        no_relay_on(brewing_decide(v, d, now_ms).1.outputs),
{
    broadcast use lemma_emit_no_relay_on;
}

proof fn lemma_brewing_no_relay_on(v: BrewContextView, input: BrewInput, now_ms: u64)
    requires
        no_relay_on(v.outputs),
    ensures
        no_relay_on(step_brewing(v, input, now_ms).1.outputs),
{
    broadcast use lemma_emit_no_relay_on;
    match input {
        BrewInput::ScaleData(d) => {
            let v1 = brewing_take_reading(v, d);
            let v2 = brewing_learn(v1, d);
            let v3 = brewing_predict(v2, d, now_ms);
            lemma_learning_no_relay_on(v1, d);
            lemma_predict_no_relay_on(v2, d, now_ms);
            lemma_decide_no_relay_on(v3, d, now_ms);
        },
        _ => {},
    }
}

proof fn lemma_settling_no_relay_on(v: BrewContextView, input: BrewInput, now_ms: u64)
    requires
        no_relay_on(v.outputs),
        input != BrewInput::UserCommand(UserEvent::StartBrewing),
        !(input matches BrewInput::ScaleData(d) && timer_starts(v, d)),
    ensures
        no_relay_on(step_settling(v, input, now_ms).1.outputs),
{
    broadcast use lemma_emit_no_relay_on;
}

proof fn lemma_system_disabled_no_relay_on(v: BrewContextView, input: BrewInput)
    requires
        no_relay_on(v.outputs),
    ensures
        no_relay_on(step_system_disabled(v, input).1.outputs),
{
    broadcast use lemma_emit_no_relay_on;
}

proof fn lemma_ble_disabled_no_relay_on(v: BrewContextView, input: BrewInput)
    requires
        no_relay_on(v.outputs),
    ensures
        no_relay_on(step_ble_disabled(v, input).1.outputs),
{
    broadcast use lemma_emit_no_relay_on;
}

proof fn lemma_ble_enabled_no_relay_on(v: BrewContextView, input: BrewInput)
    requires
        no_relay_on(v.outputs),
    ensures
        no_relay_on(step_ble_enabled(v, input).1.outputs),
{
    broadcast use lemma_emit_no_relay_on;
}

proof fn lemma_ble_scanning_no_relay_on(v: BrewContextView, input: BrewInput)
    requires
        no_relay_on(v.outputs),
    ensures
        no_relay_on(step_ble_scanning(v, input).1.outputs),
{
    broadcast use lemma_emit_no_relay_on;
}

proof fn lemma_ble_connecting_no_relay_on(v: BrewContextView, input: BrewInput)
    requires
        no_relay_on(v.outputs),
    ensures
        no_relay_on(step_ble_connecting(v, input).1.outputs),
{
    broadcast use lemma_emit_no_relay_on;
}

proof fn lemma_scale_disconnected_no_relay_on(v: BrewContextView, input: BrewInput)
    requires
        no_relay_on(v.outputs),
    ensures
        no_relay_on(step_scale_disconnected(v, input).1.outputs),
{
    broadcast use lemma_emit_no_relay_on;
}

proof fn lemma_step_no_relay_on(state: SystemState, v: BrewContextView, input: BrewInput, now_ms: u64)
    requires
        no_relay_on(v.outputs),
        !(state == SystemState::Settling && input == BrewInput::UserCommand(UserEvent::StartBrewing)),
        !((state == SystemState::Idle || state == SystemState::Settling) && (input matches BrewInput::ScaleData(d)
            && timer_starts(v, d))),
    ensures
        no_relay_on(brew_step(state, v, input, now_ms).1.outputs),
{
    reveal(brew_step);
    match state {
        SystemState::SystemDisabled => lemma_system_disabled_no_relay_on(v, input),
        SystemState::BleDisabled => lemma_ble_disabled_no_relay_on(v, input),
        SystemState::BleEnabled => lemma_ble_enabled_no_relay_on(v, input),
        SystemState::BleScanning => lemma_ble_scanning_no_relay_on(v, input),
        SystemState::BleConnecting => lemma_ble_connecting_no_relay_on(v, input),
        SystemState::ScaleDisconnected => lemma_scale_disconnected_no_relay_on(v, input),
        SystemState::Idle => lemma_idle_no_relay_on(v, input, now_ms),
        SystemState::Brewing => lemma_brewing_no_relay_on(v, input, now_ms),
        SystemState::Settling => lemma_settling_no_relay_on(v, input, now_ms),
        _ => {},
    }
}

/// The inputs that start a brew: a user starting a new brew while the
/// previous one settles, or, while idle or settling, a reading that shows the
/// scale timer starting.
pub open spec fn starts_brew(state: SystemState, v: BrewContextView, input: BrewInput) -> bool {
    ||| state == SystemState::Settling && input == BrewInput::UserCommand(UserEvent::StartBrewing)
    ||| (state == SystemState::Idle || state == SystemState::Settling) && (input matches BrewInput::ScaleData(d)
        && timer_starts(v, d))
}

proof fn lemma_starts_brew_brews(state: SystemState, v: BrewContextView, input: BrewInput, now_ms: u64)
    requires
        starts_brew(state, v, input),
    ensures
        controller_step(state, v, input, now_ms).0 == SystemState::Brewing,
{
    reveal(controller_step);
    reveal(brew_step);
    let v0 = BrewContextView { outputs: Seq::empty(), ..v };
    match input {
        BrewInput::ScaleData(d) => {
            if state == SystemState::Idle {
                assert(idle_scale_data(v0, d, now_ms).0 == SystemState::Brewing);
            } else {
                assert(settling_scale_data(v0, d).0 == SystemState::Brewing);
            }
        },
        _ => {
            assert(step_settling(v0, input, now_ms).0 == SystemState::Brewing);
        },
    }
}

/// The relay is only ever switched on when a brew starts, and the machine
/// then brews.
pub proof fn law_relay_on_only_when_brewing_starts(state: SystemState, v: BrewContextView, input: BrewInput, now_ms: u64)
    ensures
        !no_relay_on(controller_step(state, v, input, now_ms).2) ==> starts_brew(state, v, input)
            && controller_step(state, v, input, now_ms).0 == SystemState::Brewing,
{
    broadcast use lemma_emit_no_relay_on;
    reveal(controller_step);
    reveal(brew_step);
    let v0 = BrewContextView { outputs: Seq::empty(), ..v };
    assert(no_relay_on(v0.outputs));
    if starts_brew(state, v, input) {
        lemma_starts_brew_brews(state, v, input, now_ms);
    } else {
        lemma_step_no_relay_on(state, v0, input, now_ms);
    }
}

/// A reading that shows the scale timer starting while idle starts the brew:
/// the machine brews and the relay is switched on, followed by the report
/// that brewing started.
pub proof fn law_timer_start_starts_brew(v: BrewContextView, d: ScaleData, now_ms: u64)
    requires
        timer_starts(v, d),
    ensures
        controller_step(SystemState::Idle, v, BrewInput::ScaleData(d), now_ms).0 == SystemState::Brewing,
        controller_step(SystemState::Idle, v, BrewInput::ScaleData(d), now_ms).2.contains(BrewOutput::RelayOn),
        controller_step(SystemState::Idle, v, BrewInput::ScaleData(d), now_ms).2.contains(BrewOutput::BrewingStarted),
{
    reveal(controller_step);
    reveal(brew_step);
    let v0 = BrewContextView { outputs: Seq::empty(), ..v };
    let (s2, v2) = idle_scale_data(v0, d, now_ms);
    assert(v2.outputs =~= seq![BrewOutput::DisplayUpdate, BrewOutput::RelayOn, BrewOutput::BrewingStarted]);
    let outs = controller_step(SystemState::Idle, v, BrewInput::ScaleData(d), now_ms).2;
    assert(outs[1] == BrewOutput::RelayOn);
    assert(outs[2] == BrewOutput::BrewingStarted);
}

proof fn lemma_emit_len(v: BrewContextView, o: BrewOutput)
    ensures
        v.emit(o).outputs.len() <= v.outputs.len() + 1,
        v.outputs.len() < 10 ==> v.emit(o).outputs.last() == o && v.emit(o).outputs.len() == v.outputs.len() + 1,
        forall|i: int| 0 <= i < v.outputs.len() ==> v.emit(o).outputs[i] == v.outputs[i],
{
}

pub broadcast proof fn lemma_emit_len_auto(v: BrewContextView, o: BrewOutput)
    ensures
        (#[trigger] v.emit(o)).outputs.len() <= v.outputs.len() + 1,
        v.outputs.len() < 10 ==> v.emit(o).outputs.last() == o && v.emit(o).outputs.len() == v.outputs.len() + 1,
{
    lemma_emit_len(v, o);
}

/// A reading while brewing makes at most four outputs before the decision
/// whether to stop.
proof fn lemma_brewing_reading_outputs(v: BrewContextView, d: ScaleData, now_ms: u64)
    requires
        v.outputs.len() == 0,
    ensures
        brewing_predict(brewing_learn(brewing_take_reading(v, d), d), d, now_ms).outputs.len() <= 4,
{
    broadcast use lemma_emit_len_auto;
    let v1 = brewing_take_reading(v, d);
    assert(v1.outputs.len() <= 1);
    let v2 = brewing_learn(v1, d);
    if abs(d.flow_rate_cg_per_s as int) < FLOW_STOPPED_CG_PER_S && v1.overshoot_pending_predicted_stop {
        let o = (d.weight_cg - v1.target_weight_cg) as i64;
        assert(spec_record_overshoot_learning(v1, o).outputs.len() <= 2);
    }
    assert(v2.outputs.len() <= 2);
}

/// The stop decision after a reading ends in `RelayOff` whenever it leaves
/// the brew.
proof fn lemma_brewing_reading_exit(v: BrewContextView, d: ScaleData, now_ms: u64)
    requires
        v.outputs.len() == 0,
    ensures
        ({
            let (s2, v2) = brewing_scale_data(v, d, now_ms);
            s2 != SystemState::Brewing ==> 0 < v2.outputs.len() < 10 && v2.outputs.last() == BrewOutput::RelayOff
        }),
{
    broadcast use lemma_emit_len_auto;
    lemma_brewing_reading_outputs(v, d, now_ms);
    let v3 = brewing_predict(brewing_learn(brewing_take_reading(v, d), d), d, now_ms);
    assert(v3.outputs.len() <= 4);
}

/// The other ways out of a brew end in `RelayOff`.
proof fn lemma_brewing_other_exit(v: BrewContextView, input: BrewInput, now_ms: u64)
    requires
        v.outputs.len() == 0,
        !(input is ScaleData),
    ensures
        ({
            let (s2, v2) = step_brewing(v, input, now_ms);
            s2 != SystemState::Brewing ==> 0 < v2.outputs.len() < 10 && v2.outputs.last() == BrewOutput::RelayOff
        }),
{
    broadcast use lemma_emit_len_auto;
}

/// Every way out of a brew switches the relay off in the same step: a
/// stop, the scale timer stopping, the learned stop time, the user, an
/// emergency stop, losing the scale, and the killswitch.
pub proof fn law_brewing_exit_turns_relay_off(v: BrewContextView, input: BrewInput, now_ms: u64)
    ensures
        controller_step(SystemState::Brewing, v, input, now_ms).0 != SystemState::Brewing ==> controller_step(
            SystemState::Brewing,
            v,
            input,
            now_ms,
        ).2.contains(BrewOutput::RelayOff),
{
    reveal(controller_step);
    reveal(brew_step);
    let v0 = BrewContextView { outputs: Seq::empty(), ..v };
    let (s2, v2) = step_brewing(v0, input, now_ms);
    match input {
        BrewInput::ScaleData(d) => lemma_brewing_reading_exit(v0, d, now_ms),
        _ => lemma_brewing_other_exit(v0, input, now_ms),
    }
    if s2 != SystemState::Brewing {
        let outs = controller_step(SystemState::Brewing, v, input, now_ms).2;
        assert(outs[v2.outputs.len() - 1] == BrewOutput::RelayOff);
    }
}

/// No output of the sequence reports a change of state.
pub open spec fn no_state_change(s: Seq<BrewOutput>) -> bool {
    forall|i: int| 0 <= i < s.len() ==> !(#[trigger] s[i] is StateChanged)
}

pub broadcast proof fn lemma_emit_no_state_change(v: BrewContextView, o: BrewOutput)
    requires
        no_state_change(v.outputs),
        !(o is StateChanged),
    ensures
        #[trigger] no_state_change(v.emit(o).outputs),
{
    let s = v.emit(o).outputs;
    assert forall|i: int| 0 <= i < s.len() implies !(#[trigger] s[i] is StateChanged) by {
        if i < v.outputs.len() {
            assert(s[i] == v.outputs[i]);
        }
    }
}

/// What one step of a state may output: few outputs, none of them a change
/// of state.
pub open spec fn small_clean(v: BrewContextView) -> bool {
    v.outputs.len() <= 9 && no_state_change(v.outputs)
}

proof fn lemma_auto_tare_outputs(v: BrewContextView, w: i32, now_ms: u64)
    requires
        no_state_change(v.outputs),
    ensures
        no_state_change(spec_should_auto_tare(v, w, now_ms).0.outputs),
        spec_should_auto_tare(v, w, now_ms).0.outputs.len() <= v.outputs.len() + 1,
{
    broadcast use lemma_emit_no_state_change, lemma_emit_len_auto;
}

proof fn lemma_idle_reading_outputs(v: BrewContextView, d: ScaleData, now_ms: u64)
    requires
        v.outputs.len() == 0,
    ensures
        small_clean(idle_scale_data(v, d, now_ms).1),
{
    broadcast use lemma_emit_no_state_change, lemma_emit_len_auto;
    assert(no_state_change(v.outputs));
    let v1 = BrewContextView { current_weight_cg: d.weight_cg, timer_running: d.timer_running, ..v }.emit(
        BrewOutput::DisplayUpdate,
    );
    assert(v1.outputs.len() <= 1 && no_state_change(v1.outputs));
    lemma_auto_tare_outputs(v1, d.weight_cg, now_ms);
}

proof fn lemma_idle_outputs(v: BrewContextView, input: BrewInput, now_ms: u64)
    requires
        v.outputs.len() == 0,
    ensures
        small_clean(step_idle(v, input, now_ms).1),
{
    match input {
        BrewInput::ScaleData(d) => lemma_idle_reading_outputs(v, d, now_ms),
        _ => lemma_idle_other_outputs(v, input, now_ms),
    }
}

proof fn lemma_idle_other_outputs(v: BrewContextView, input: BrewInput, now_ms: u64)
    requires
        v.outputs.len() == 0,
        !(input is ScaleData),
    ensures
        small_clean(step_idle(v, input, now_ms).1),
{
    broadcast use lemma_emit_no_state_change, lemma_emit_len_auto;
    assert(no_state_change(v.outputs));
}

proof fn lemma_learn_clean(v: BrewContextView, d: ScaleData)
    requires
        no_state_change(v.outputs),
    ensures
        no_state_change(brewing_learn(v, d).outputs),
{
    broadcast use lemma_emit_no_state_change;
    if abs(d.flow_rate_cg_per_s as int) < FLOW_STOPPED_CG_PER_S && v.overshoot_pending_predicted_stop {
        let o = (d.weight_cg - v.target_weight_cg) as i64;
        assert(no_state_change(spec_record_overshoot_learning(v, o).outputs));
    }
}

proof fn lemma_predict_clean(v: BrewContextView, d: ScaleData, now_ms: u64)
    requires
        no_state_change(v.outputs),
    ensures
        no_state_change(brewing_predict(v, d, now_ms).outputs),
{
    broadcast use lemma_emit_no_state_change;
}

proof fn lemma_decide_clean(v: BrewContextView, d: ScaleData, now_ms: u64)
    requires
        no_state_change(v.outputs),
        v.outputs.len() <= 4,
    ensures
        small_clean(brewing_decide(v, d, now_ms).1),
{
    broadcast use lemma_emit_no_state_change, lemma_emit_len_auto;
}

proof fn lemma_brewing_reading_clean(v: BrewContextView, d: ScaleData, now_ms: u64)
    requires
        v.outputs.len() == 0,
    ensures
        small_clean(brewing_scale_data(v, d, now_ms).1),
{
    broadcast use lemma_emit_no_state_change;
    assert(no_state_change(v.outputs));
    lemma_brewing_reading_outputs(v, d, now_ms);
    let v1 = brewing_take_reading(v, d);
    lemma_learn_clean(v1, d);
    let v2 = brewing_learn(v1, d);
    lemma_predict_clean(v2, d, now_ms);
    lemma_decide_clean(brewing_predict(v2, d, now_ms), d, now_ms);
}

proof fn lemma_brewing_other_outputs(v: BrewContextView, input: BrewInput, now_ms: u64)
    requires
        v.outputs.len() == 0,
        !(input is ScaleData),
    ensures
        small_clean(step_brewing(v, input, now_ms).1),
{
    broadcast use lemma_emit_no_state_change, lemma_emit_len_auto;
    assert(no_state_change(v.outputs));
}

proof fn lemma_brewing_outputs(v: BrewContextView, input: BrewInput, now_ms: u64)
    requires
        v.outputs.len() == 0,
    ensures
        small_clean(step_brewing(v, input, now_ms).1),
{
    match input {
        BrewInput::ScaleData(d) => lemma_brewing_reading_clean(v, d, now_ms),
        _ => lemma_brewing_other_outputs(v, input, now_ms),
    }
}

proof fn lemma_settling_outputs(v: BrewContextView, input: BrewInput, now_ms: u64)
    requires
        v.outputs.len() == 0,
    ensures
        small_clean(step_settling(v, input, now_ms).1),
{
    broadcast use lemma_emit_no_state_change, lemma_emit_len_auto;
    assert(no_state_change(v.outputs));
}

proof fn lemma_disabled_outputs(v: BrewContextView, input: BrewInput)
    requires
        v.outputs.len() == 0,
    ensures
        small_clean(step_system_disabled(v, input).1),
        small_clean(step_ble_disabled(v, input).1),
{
    broadcast use lemma_emit_no_state_change, lemma_emit_len_auto;
    assert(no_state_change(v.outputs));
}

proof fn lemma_ble_enabled_outputs(v: BrewContextView, input: BrewInput)
    requires
        v.outputs.len() == 0,
    ensures
        small_clean(step_ble_enabled(v, input).1),
        small_clean(step_ble_scanning(v, input).1),
{
    broadcast use lemma_emit_no_state_change, lemma_emit_len_auto;
    assert(no_state_change(v.outputs));
}

proof fn lemma_connecting_outputs(v: BrewContextView, input: BrewInput)
    requires
        v.outputs.len() == 0,
    ensures
        small_clean(step_ble_connecting(v, input).1),
        small_clean(step_scale_disconnected(v, input).1),
{
    broadcast use lemma_emit_no_state_change, lemma_emit_len_auto;
    assert(no_state_change(v.outputs));
}

proof fn lemma_other_outputs(state: SystemState, v: BrewContextView, input: BrewInput, now_ms: u64)
    requires
        v.outputs.len() == 0,
        state != SystemState::Idle,
        state != SystemState::Brewing,
        state != SystemState::Settling,
    ensures
        small_clean(brew_step(state, v, input, now_ms).1),
{
    reveal(brew_step);
    lemma_disabled_outputs(v, input);
    lemma_ble_enabled_outputs(v, input);
    lemma_connecting_outputs(v, input);
    assert(no_state_change(v.outputs));
}

/// A step hands out at most ten outputs, only of this step; a change of
/// state is reported exactly when the state changes, once, as the last
/// output, and no other output reports one.
pub proof fn law_state_change_reported_once(state: SystemState, v: BrewContextView, input: BrewInput, now_ms: u64)
    ensures
        ({
            let (s2, v2, outs) = controller_step(state, v, input, now_ms);
            &&& outs.len() <= 10
            &&& v2.outputs.len() == 0
            &&& (s2 != state <==> outs.len() > 0 && outs.last() == BrewOutput::StateChanged { from: state, to: s2 })
            &&& forall|i: int| 0 <= i < outs.len() - 1 ==> !(#[trigger] outs[i] is StateChanged)
            &&& s2 == state ==> no_state_change(outs)
        }),
{
    reveal(controller_step);
    reveal(brew_step);
    let v0 = BrewContextView { outputs: Seq::empty(), ..v };
    if state == SystemState::Idle {
        lemma_idle_outputs(v0, input, now_ms);
    } else if state == SystemState::Brewing {
        lemma_brewing_outputs(v0, input, now_ms);
    } else if state == SystemState::Settling {
        lemma_settling_outputs(v0, input, now_ms);
    } else {
        lemma_other_outputs(state, v0, input, now_ms);
    }
    let (s2, v2) = brew_step(state, v0, input, now_ms);
    assert(small_clean(v2));
    let outs = controller_step(state, v, input, now_ms).2;
    if s2 != state {
        assert(outs == v2.outputs.push(BrewOutput::StateChanged { from: state, to: s2 }));
        assert forall|i: int| 0 <= i < outs.len() - 1 implies !(#[trigger] outs[i] is StateChanged) by {
            assert(outs[i] == v2.outputs[i]);
        }
    } else {
        assert(outs == v2.outputs);
        if outs.len() > 0 {
            assert(!(outs[outs.len() - 1] is StateChanged));
        }
    }
}

/// The machine's auto-tare tares only when it settles on an object: from an
/// empty, loading or unloading scale, on a stable reading that is not empty,
/// which becomes the remembered weight. Taking the cup off never tares.
pub proof fn law_machine_tares_only_on_object(v: BrewContextView, w: i32, now_ms: u64)
    ensures
        ({
            let (v2, tare) = spec_should_auto_tare(v, w, now_ms);
            tare ==> {
                &&& v.auto_tare_state != AutoTareState::StableObject
                &&& v2.auto_tare_state == AutoTareState::StableObject
                &&& v2.auto_tare_stable_weight_cg == w
                &&& !is_empty_reading(w, v.auto_tare_empty_threshold_cg)
                &&& window_stable(v2.auto_tare_weight_history, v.auto_tare_stable_readings_needed as nat)
            }
        }),
{
}

/// The stand-alone auto-tare controller and the machine's auto-tare agree:
/// given the same settings, state, remembered weight and history, with the
/// system enabled and the machine idle, a reading makes both tare or neither
/// and leaves both in the same state, weight and history.
pub proof fn law_auto_tare_implementations_agree(a: AutoTareView, v: BrewContextView, w: i32, now_ms: u64)
    requires
        v.system_enabled,
        a.enabled == v.auto_tare_enabled,
        a.state == v.auto_tare_state,
        a.stable_weight_cg == v.auto_tare_stable_weight_cg,
        a.history == v.auto_tare_weight_history,
        a.last_tare_time_ms == v.auto_tare_last_tare_time_ms,
        a.brewing_cooldown_time_ms == v.auto_tare_brewing_cooldown_time_ms,
        a.empty_threshold_cg == v.auto_tare_empty_threshold_cg,
        a.stable_readings_needed == v.auto_tare_stable_readings_needed,
    ensures
        ({
            let (a2, t1) = auto_tare_step(a, w, StatusBrewState::Idle, v.timer_running, now_ms);
            let (v2, t2) = spec_should_auto_tare(v, w, now_ms);
            &&& t1 == t2
            &&& a2.state == v2.auto_tare_state
            &&& a2.stable_weight_cg == v2.auto_tare_stable_weight_cg
            &&& a2.history == v2.auto_tare_weight_history
        }),
{
}

/// A predictive stop is scheduled ahead of the target: the learned stop
/// delay is taken off the time the target is still away, leaving at least
/// 100 ms; so a longer learned delay never schedules a later stop, and when
/// the target is more than 100 ms away the stop never comes after it.
pub proof fn law_scheduled_stop_ahead_of_target(v: BrewContextView, time_to_target: int, now_ms: u64, longer: i32)
    requires
        v.outputs.len() < 10,
        0 <= v.overshoot_stop_delay_ms <= longer,
    ensures
        ({
            let v2 = spec_schedule_delayed_stop(v, time_to_target, now_ms);
            let delay = time_to_target - v.overshoot_stop_delay_ms;
            let expected = if delay > 100 { delay } else { 100 };
            &&& v2.outputs.last() == (BrewOutput::PredictiveStopScheduled {
                delay_ms: expected as i32,
                predicted_weight_cg: 0,
            })
            &&& v2.overshoot_pending_stop_time_ms == Some(
                if now_ms + expected > u64::MAX { u64::MAX } else { (now_ms + expected) as u64 },
            )
            &&& expected >= 100
            &&& time_to_target > 100 ==> expected <= time_to_target
            &&& ({
                let v3 = spec_schedule_delayed_stop(
                    BrewContextView { overshoot_stop_delay_ms: longer, ..v },
                    time_to_target,
                    now_ms,
                );
                v3.overshoot_pending_stop_time_ms->0 <= v2.overshoot_pending_stop_time_ms->0
            })
        }),
{
}

/// A reading during a brew that calls for a predictive stop schedules it
/// from the time the remaining weight takes at the current flow, less the
/// learned stop delay (at least 100 ms).
pub proof fn law_predictive_stop_from_reading(v: BrewContextView, d: ScaleData, now_ms: u64)
    requires
        v.outputs.len() < 9,
        predictive_stop_due(v.overshoot_stop_delay_ms, d, v.target_weight_cg),
    ensures
        ({
            let ttt = (v.target_weight_cg - d.weight_cg) * 1000 / (d.flow_rate_cg_per_s as int);
            let delay = ttt - v.overshoot_stop_delay_ms;
            let expected = if delay > 100 { delay } else { 100 };
            let v2 = brewing_predict(v, d, now_ms);
            &&& v2.overshoot_pending_predicted_stop
            &&& v2.overshoot_pending_stop_time_ms == Some(
                if now_ms + expected > u64::MAX { u64::MAX } else { (now_ms + expected) as u64 },
            )
            &&& v2.outputs.contains(BrewOutput::PredictiveStopScheduled { delay_ms: expected as i32, predicted_weight_cg: 0 })
        }),
{
    let ttt = (v.target_weight_cg - d.weight_cg) * 1000 / (d.flow_rate_cg_per_s as int);
    let delay = ttt - v.overshoot_stop_delay_ms;
    let expected = if delay > 100 { delay } else { 100 };
    let v1 = spec_schedule_delayed_stop(
        BrewContextView { overshoot_pending_predicted_stop: true, ..v },
        time_to_target_ms(v.target_weight_cg - d.weight_cg, d.flow_rate_cg_per_s as int),
        now_ms,
    );
    assert(v1.outputs[v.outputs.len() as int] == BrewOutput::PredictiveStopScheduled {
        delay_ms: expected as i32,
        predicted_weight_cg: 0,
    });
    let v2 = brewing_predict(v, d, now_ms);
    assert(v2.outputs[v.outputs.len() as int] == v1.outputs[v.outputs.len() as int]);
}

/// Reaching the target weight ends a brew: during a brew, a reading with the
/// scale timer running and a weight at or above the target stops the timer,
/// switches the relay off and settles.
pub proof fn law_target_weight_stops_brew(v: BrewContextView, d: ScaleData, now_ms: u64)
    requires
        d.timer_running,
        d.weight_cg >= v.target_weight_cg,
    ensures
        controller_step(SystemState::Brewing, v, BrewInput::ScaleData(d), now_ms).0 == SystemState::Settling,
        controller_step(SystemState::Brewing, v, BrewInput::ScaleData(d), now_ms).2.contains(BrewOutput::RelayOff),
        controller_step(SystemState::Brewing, v, BrewInput::ScaleData(d), now_ms).2.contains(BrewOutput::StopTimer),
{
    reveal(controller_step);
    reveal(brew_step);
    let v0 = BrewContextView { outputs: Seq::empty(), ..v };
    lemma_brewing_reading_outputs(v0, d, now_ms);
    let v1 = brewing_take_reading(v0, d);
    let v2 = brewing_learn(v1, d);
    let v3 = brewing_predict(v2, d, now_ms);
    assert(v1.target_weight_cg == v.target_weight_cg);
    if abs(d.flow_rate_cg_per_s as int) < FLOW_STOPPED_CG_PER_S && v1.overshoot_pending_predicted_stop {
        let o = (d.weight_cg - v1.target_weight_cg) as i64;
        assert(spec_record_overshoot_learning(v1, o).target_weight_cg == v.target_weight_cg);
    }
    assert(v2.target_weight_cg == v.target_weight_cg);
    assert(v3.target_weight_cg == v.target_weight_cg);
    let (s4, v4) = brewing_decide(v3, d, now_ms);
    assert(s4 == SystemState::Settling);
    let n: int = v3.outputs.len() as int;
    assert(v4.outputs[n] == BrewOutput::StopTimer);
    assert(v4.outputs[n + 1] == BrewOutput::RelayOff);
    let outs = controller_step(SystemState::Brewing, v, BrewInput::ScaleData(d), now_ms).2;
    assert(outs[n] == BrewOutput::StopTimer);
    assert(outs[n + 1] == BrewOutput::RelayOff);
}

/// The machine's auto-tare tares a newly settled object: with auto-tare and
/// the system enabled, the timer stopped and no cooldown, a stable reading
/// that is not empty tares and becomes the remembered weight whenever the
/// detector was not already settled on an object.
pub proof fn law_machine_tares_settled_object(v: BrewContextView, w: i32, now_ms: u64)
    requires
        v.auto_tare_enabled,
        v.system_enabled,
        !v.timer_running,
        !in_tare_cooldown(v.auto_tare_brewing_cooldown_time_ms, v.auto_tare_last_tare_time_ms, now_ms),
        v.auto_tare_state != AutoTareState::StableObject,
        window_stable(history_push(v.auto_tare_weight_history, w), v.auto_tare_stable_readings_needed as nat),
        !is_empty_reading(w, v.auto_tare_empty_threshold_cg),
    ensures
        spec_should_auto_tare(v, w, now_ms).1,
        spec_should_auto_tare(v, w, now_ms).0.auto_tare_state == AutoTareState::StableObject,
        spec_should_auto_tare(v, w, now_ms).0.auto_tare_stable_weight_cg == w,
{
}

} // verus!
