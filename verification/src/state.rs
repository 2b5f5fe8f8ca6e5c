//! The controller's shared state: readings, timer and brew states, the
//! configuration, connection flags and a bounded, numbered message log.

use vstd::prelude::*;
use crate::bounded::{log_items, logs_len, logs_push, logs_remove_first};
use crate::text::{decimal, fixed2, push_decimal, push_fixed2, push_text};
use crate::types::{AutoTareState, BrewConfig, BrewState, ScaleData, SystemState, TimerState};

verus! {

/// The number the next log entry gets after `c`; it wraps at `u32::MAX`.
pub open spec fn next_count(c: u32) -> u32 {
    if c == u32::MAX { 0 } else { (c + 1) as u32 }
}

/// A log entry: `[n] message`.
pub open spec fn entry_text(n: u32, msg: Seq<char>) -> Seq<char> {
    "["@ + decimal(n as nat) + "] "@ + msg
}

/// The log after appending `entry`: the oldest entry is dropped when the log
/// holds its capacity of one hundred.
pub open spec fn log_after(log: Seq<Seq<char>>, entry: Seq<char>) -> Seq<Seq<char>> {
    if log.len() >= 100 { log.drop_first().push(entry) } else { log.push(entry) }
}

/// Name of a timer state, as `{:?}` renders it.
pub open spec fn timer_state_name(t: TimerState) -> Seq<char> {
    match t {
        TimerState::Idle => "Idle"@,
        TimerState::Running => "Running"@,
        TimerState::Paused => "Paused"@,
    }
}

/// Name of a brew state, as `{:?}` renders it.
pub open spec fn brew_state_name(b: BrewState) -> Seq<char> {
    match b {
        BrewState::Idle => "Idle"@,
        BrewState::Brewing => "Brewing"@,
        BrewState::BrewSettling => "BrewSettling"@,
    }
}

/// The log message of a reading: weight and flow in grams with two decimals.
pub open spec fn scale_message(d: ScaleData) -> Seq<char> {
    "Scale: "@ + fixed2(d.weight_cg as int) + "g, "@ + fixed2(d.flow_rate_cg_per_s as int) + "g/s"@
}

/// `Connected` or `Disconnected`.
pub open spec fn connection_word(c: bool) -> Seq<char> {
    if c { "Connected"@ } else { "Disconnected"@ }
}

/// The state as the specifications see it: the fields, the log's texts and
/// the log counter.
pub struct StateView {
    pub scale_data: Option<ScaleData>,
    pub timer_state: TimerState,
    pub brew_state: BrewState,
    pub auto_tare_state: AutoTareState,
    pub config: BrewConfig,
    pub relay_enabled: bool,
    pub ble_connected: bool,
    pub wifi_connected: bool,
    pub last_error: Option<Seq<char>>,
    pub log: Seq<Seq<char>>,
    pub counter: u32,
}

/// One change of the state, as the state manager's methods make them.
pub enum StateOp {
    ScaleData(ScaleData),
    Timer(TimerState),
    Brew(BrewState),
    AutoTare(AutoTareState),
    Config(BrewConfig),
    Relay(bool),
    Ble(bool),
    Wifi(bool),
    Error(Option<Seq<char>>),
    Log(Seq<char>),
    ResetToIdle,
}

/// `v` with one more log entry carrying `msg`.
pub open spec fn log_push(v: StateView, msg: Seq<char>) -> StateView {
    StateView {
        log: log_after(v.log, entry_text(next_count(v.counter), msg)),
        counter: next_count(v.counter),
        ..v
    }
}

/// The effect of one change: the field is set, and a log entry is made when
/// the method logs (on a change, for the flags and states).
pub open spec fn apply_op(v: StateView, op: StateOp) -> StateView {
    match op {
        StateOp::ScaleData(d) => log_push(StateView { scale_data: Some(d), ..v }, scale_message(d)),
        StateOp::Timer(t) => if v.timer_state != t {
            log_push(StateView { timer_state: t, ..v }, "Timer: "@ + timer_state_name(t))
        } else {
            v
        },
        StateOp::Brew(b) => if v.brew_state != b {
            log_push(StateView { brew_state: b, ..v }, "Brew: "@ + brew_state_name(b))
        } else {
            v
        },
        StateOp::AutoTare(a) => StateView { auto_tare_state: a, ..v },
        StateOp::Config(c) => log_push(StateView { config: c, ..v }, "Configuration updated"@),
        StateOp::Relay(e) => if v.relay_enabled != e {
            log_push(
                StateView { relay_enabled: e, ..v },
                if e { "Relay: ON"@ } else { "Relay: OFF"@ },
            )
        } else {
            v
        },
        StateOp::Ble(c) => if v.ble_connected != c {
            log_push(StateView { ble_connected: c, ..v }, "BLE: "@ + connection_word(c))
        } else {
            v
        },
        StateOp::Wifi(c) => if v.wifi_connected != c {
            log_push(StateView { wifi_connected: c, ..v }, "Wi-Fi: "@ + connection_word(c))
        } else {
            v
        },
        StateOp::Error(e) => match e {
            Some(m) => log_push(StateView { last_error: Some(m), ..v }, "ERROR: "@ + m),
            None => StateView { last_error: None, ..v },
        },
        StateOp::Log(m) => log_push(v, m),
        StateOp::ResetToIdle => log_push(
            StateView {
                timer_state: TimerState::Idle,
                brew_state: BrewState::Idle,
                relay_enabled: false,
                last_error: None,
                ..v
            },
            "System reset to idle state"@,
        ),
    }
}

/// The effect of several changes, in order.
pub open spec fn apply_ops(v: StateView, ops: Seq<StateOp>) -> StateView
    decreases ops.len(),
{
    if ops.len() == 0 {
        v
    } else {
        apply_op(apply_ops(v, ops.drop_last()), ops.last())
    }
}

/// The state of a fresh state manager.
pub open spec fn initial_state_view() -> StateView {
    StateView {
        scale_data: None,
        timer_state: TimerState::Idle,
        brew_state: BrewState::Idle,
        auto_tare_state: AutoTareState::Empty,
        config: BrewConfig { target_weight_cg: 3600, auto_tare: true, predictive_stop: true },
        relay_enabled: false,
        ble_connected: false,
        wifi_connected: false,
        last_error: None,
        log: Seq::empty(),
        counter: 0,
    }
}

/// Changes applied in two batches have the effect of the concatenation.
pub proof fn lemma_apply_concat(v: StateView, a: Seq<StateOp>, b: Seq<StateOp>)
    ensures
        apply_ops(apply_ops(v, a), b) == apply_ops(v, a + b),
    decreases b.len(),
{
    if b.len() == 0 {
        assert(a + b =~= a);
    } else {
        lemma_apply_concat(v, a, b.drop_last());
        assert((a + b).drop_last() =~= a + b.drop_last());
    }
}

/// One change applied as a batch of one.
pub proof fn lemma_apply_one(v: StateView, op: StateOp)
    ensures
        apply_ops(v, seq![op]) == apply_op(v, op),
{
    assert(seq![op].drop_last() =~= Seq::<StateOp>::empty());
    assert(apply_ops(v, Seq::<StateOp>::empty()) == v);
}

/// A batch followed by one more change.
pub proof fn lemma_apply_push(v: StateView, a: Seq<StateOp>, op: StateOp)
    ensures
        apply_op(apply_ops(v, a), op) == apply_ops(v, a.push(op)),
{
    assert(a.push(op).drop_last() =~= a);
}

/// Owner of the system state.
pub struct StateManager {
    pub state: SystemState,
    pub log_counter: u32,
}

/// The fields of the state other than the log.
pub open spec fn same_fields_but_log(a: SystemState, b: SystemState) -> bool {
    &&& a.scale_data == b.scale_data
    &&& a.timer_state == b.timer_state
    &&& a.brew_state == b.brew_state
    &&& a.auto_tare_state == b.auto_tare_state
    &&& a.config == b.config
    &&& a.relay_enabled == b.relay_enabled
    &&& a.ble_connected == b.ble_connected
    &&& a.wifi_connected == b.wifi_connected
    &&& a.last_error == b.last_error
}

impl StateManager {
    /// The state as the specifications see it.
    pub open spec fn view_state(&self) -> StateView {
        StateView {
            scale_data: self.state.scale_data,
            timer_state: self.state.timer_state,
            brew_state: self.state.brew_state,
            auto_tare_state: self.state.auto_tare_state,
            config: self.state.config,
            relay_enabled: self.state.relay_enabled,
            ble_connected: self.state.ble_connected,
            wifi_connected: self.state.wifi_connected,
            last_error: match self.state.last_error {
                Some(e) => Some(e@),
                None => None,
            },
            log: log_items(self.state.log_messages),
            counter: self.log_counter,
        }
    }

    /// The default state with an empty log.
    pub fn new() -> (r: Self)
        ensures
            r.state.scale_data is None,
            r.state.timer_state == TimerState::Idle,
            r.state.brew_state == BrewState::Idle,
            r.state.auto_tare_state == AutoTareState::Empty,
            r.state.config == (BrewConfig { target_weight_cg: 3600, auto_tare: true, predictive_stop: true }),
            !r.state.relay_enabled,
            !r.state.ble_connected,
            !r.state.wifi_connected,
            r.state.last_error is None,
            log_items(r.state.log_messages) == Seq::<Seq<char>>::empty(),
            r.log_counter == 0,
            r.view_state() == initial_state_view(),
    {
        StateManager { state: SystemState::default(), log_counter: 0 }
    }

    /// Appends `[n] message` to the log, dropping the oldest entry when full.
    fn add_log_message(&mut self, message: String)
        ensures
            final(self).view_state() == apply_op(old(self).view_state(), StateOp::Log(message@)),
    {
        let count = if self.log_counter == u32::MAX { 0 } else { self.log_counter + 1 };
        self.log_counter = count;
        let mut entry = String::from_str("[");
        push_decimal(&mut entry, count as u64);
        push_text(&mut entry, "] ");
        push_text(&mut entry, message.as_str());
        proof {
            assert(entry@ =~= entry_text(count, message@));
        }
        if logs_len(&self.state.log_messages) >= 100 {
            let _ = logs_remove_first(&mut self.state.log_messages);
        }
        let _ = logs_push(&mut self.state.log_messages, entry);
    }

    /// Records a reading and logs it.
    pub fn update_scale_data(&mut self, scale_data: ScaleData)
        ensures
            final(self).view_state() == apply_op(old(self).view_state(), StateOp::ScaleData(scale_data)),
    {
        self.state.scale_data = Some(scale_data);
        let mut msg = String::from_str("Scale: ");
        push_fixed2(&mut msg, scale_data.weight_cg as i64);
        push_text(&mut msg, "g, ");
        push_fixed2(&mut msg, scale_data.flow_rate_cg_per_s as i64);
        push_text(&mut msg, "g/s");
        proof {
            assert(msg@ =~= scale_message(scale_data));
        }
        self.add_log_message(msg);
    }

    /// Sets the timer state; a change is logged as `Timer: <state>`.
    pub fn update_timer_state(&mut self, timer_state: TimerState)
        ensures
            final(self).view_state() == apply_op(old(self).view_state(), StateOp::Timer(timer_state)),
    {
        if self.state.timer_state != timer_state {
            self.state.timer_state = timer_state;
            let name = match timer_state {
                TimerState::Idle => "Idle",
                TimerState::Running => "Running",
                TimerState::Paused => "Paused",
            };
            let msg = String::from_str("Timer: ").concat(name);
            self.add_log_message(msg);
        }
    }

    /// Sets the brew state; a change is logged as `Brew: <state>`.
    pub fn update_brew_state(&mut self, brew_state: BrewState)
        ensures
            final(self).view_state() == apply_op(old(self).view_state(), StateOp::Brew(brew_state)),
    {
        if self.state.brew_state != brew_state {
            self.state.brew_state = brew_state;
            let name = match brew_state {
                BrewState::Idle => "Idle",
                BrewState::Brewing => "Brewing",
                BrewState::BrewSettling => "BrewSettling",
            };
            let msg = String::from_str("Brew: ").concat(name);
            self.add_log_message(msg);
        }
    }

    /// Sets the auto-tare state, without logging.
    pub fn update_auto_tare_state(&mut self, auto_tare_state: AutoTareState)
        ensures
            final(self).view_state() == apply_op(old(self).view_state(), StateOp::AutoTare(auto_tare_state)),
    {
        if self.state.auto_tare_state != auto_tare_state {
            self.state.auto_tare_state = auto_tare_state;
        }
    }

    /// Replaces the configuration and logs it.
    pub fn update_config(&mut self, config: BrewConfig)
        ensures
            final(self).view_state() == apply_op(old(self).view_state(), StateOp::Config(config)),
    {
        self.state.config = config;
        self.add_log_message(String::from_str("Configuration updated"));
    }

    /// Sets the relay flag; a change is logged as `Relay: ON` or `Relay: OFF`.
    pub fn set_relay_enabled(&mut self, enabled: bool)
        ensures
            final(self).view_state() == apply_op(old(self).view_state(), StateOp::Relay(enabled)),
    {
        if self.state.relay_enabled != enabled {
            self.state.relay_enabled = enabled;
            let msg = if enabled { String::from_str("Relay: ON") } else { String::from_str("Relay: OFF") };
            self.add_log_message(msg);
        }
    }

    /// Sets the BLE flag; a change is logged as `BLE: Connected` or
    /// `BLE: Disconnected`.
    pub fn set_ble_connected(&mut self, connected: bool)
        ensures
            final(self).view_state() == apply_op(old(self).view_state(), StateOp::Ble(connected)),
    {
        if self.state.ble_connected != connected {
            self.state.ble_connected = connected;
            let word = if connected { "Connected" } else { "Disconnected" };
            let msg = String::from_str("BLE: ").concat(word);
            self.add_log_message(msg);
        }
    }

    /// Sets the Wi-Fi flag; a change is logged as `Wi-Fi: Connected` or
    /// `Wi-Fi: Disconnected`.
    pub fn set_wifi_connected(&mut self, connected: bool)
        ensures
            final(self).view_state() == apply_op(old(self).view_state(), StateOp::Wifi(connected)),
    {
        if self.state.wifi_connected != connected {
            self.state.wifi_connected = connected;
            let word = if connected { "Connected" } else { "Disconnected" };
            let msg = String::from_str("Wi-Fi: ").concat(word);
            self.add_log_message(msg);
        }
    }

    /// Sets or clears the last error; an error is logged as `ERROR: <text>`.
    pub fn set_error(&mut self, error: Option<String>)
        ensures
            final(self).view_state() == apply_op(old(self).view_state(), StateOp::Error(match error { Some(e) => Some(e@), None => None })),
    {
        match error {
            Some(err) => {
                let msg = String::from_str("ERROR: ").concat(err.as_str());
                self.state.last_error = Some(err);
                self.add_log_message(msg);
            },
            None => {
                self.state.last_error = None;
            },
        }
    }

    /// Logs `message`.
    pub fn add_log(&mut self, message: String)
        ensures
            final(self).view_state() == apply_op(old(self).view_state(), StateOp::Log(message@)),
    {
        self.add_log_message(message);
    }

    /// The last weight, in centigrams.
    pub fn get_current_weight(&self) -> (r: Option<i32>)
        ensures
            r == match self.state.scale_data {
                Some(d) => Some(d.weight_cg),
                None => None,
            },
    {
        match self.state.scale_data {
            Some(d) => Some(d.weight_cg),
            None => None,
        }
    }

    /// The target weight, in centigrams.
    pub fn get_target_weight(&self) -> (r: i32)
        ensures
            r == self.state.config.target_weight_cg,
    {
        self.state.config.target_weight_cg
    }

    /// The last flow rate, in centigrams per second.
    pub fn get_current_flow_rate(&self) -> (r: Option<i32>)
        ensures
            r == match self.state.scale_data {
                Some(d) => Some(d.flow_rate_cg_per_s),
                None => None,
            },
    {
        match self.state.scale_data {
            Some(d) => Some(d.flow_rate_cg_per_s),
            None => None,
        }
    }

    /// Whether auto-tare is configured on.
    pub fn is_auto_tare_enabled(&self) -> (r: bool)
        ensures
            r == self.state.config.auto_tare,
    {
        self.state.config.auto_tare
    }

    /// Whether predictive stopping is configured on.
    pub fn is_predictive_stop_enabled(&self) -> (r: bool)
        ensures
            r == self.state.config.predictive_stop,
    {
        self.state.config.predictive_stop
    }

    /// The timer state.
    pub fn get_timer_state(&self) -> (r: TimerState)
        ensures
            r == self.state.timer_state,
    {
        self.state.timer_state
    }

    /// The brew state.
    pub fn get_brew_state(&self) -> (r: BrewState)
        ensures
            r == self.state.brew_state,
    {
        self.state.brew_state
    }

    /// The auto-tare state.
    pub fn get_auto_tare_state(&self) -> (r: AutoTareState)
        ensures
            r == self.state.auto_tare_state,
    {
        self.state.auto_tare_state
    }

    /// Whether the scale is connected.
    pub fn is_ble_connected(&self) -> (r: bool)
        ensures
            r == self.state.ble_connected,
    {
        self.state.ble_connected
    }

    /// Whether Wi-Fi is connected.
    pub fn is_wifi_connected(&self) -> (r: bool)
        ensures
            r == self.state.wifi_connected,
    {
        self.state.wifi_connected
    }

    /// Whether the relay is on.
    pub fn is_relay_enabled(&self) -> (r: bool)
        ensures
            r == self.state.relay_enabled,
    {
        self.state.relay_enabled
    }

    /// The configuration.
    pub fn get_config(&self) -> (r: BrewConfig)
        ensures
            r == self.state.config,
    {
        self.state.config
    }

    /// A copy of the whole state.
    pub fn get_full_state(&self) -> (r: SystemState)
        ensures
            same_fields_but_log(r, self.state),
            log_items(r.log_messages) == log_items(self.state.log_messages),
    {
        self.state.clone()
    }

    /// Back to idle: timer and brew idle, relay off, error cleared, logged.
    pub fn reset_to_idle(&mut self)
        ensures
            final(self).view_state() == apply_op(old(self).view_state(), StateOp::ResetToIdle),
    {
        self.state.timer_state = TimerState::Idle;
        self.state.brew_state = BrewState::Idle;
        self.state.relay_enabled = false;
        self.state.last_error = None;
        self.add_log_message(String::from_str("System reset to idle state"));
    }
}

/// The log stays within its capacity of one hundred entries under every
/// change.
pub proof fn law_log_bounded(v: StateView, op: StateOp)
    requires
        v.log.len() <= 100,
    ensures
        apply_op(v, op).log.len() <= 100,
{
}

/// A logged message becomes the newest entry, numbered one past the last,
/// and the older entries keep their order (the oldest goes when full).
pub proof fn law_log_appends_numbered(v: StateView, m: Seq<char>)
    ensures
        apply_op(v, StateOp::Log(m)).log.last() == entry_text(next_count(v.counter), m),
        apply_op(v, StateOp::Log(m)).counter == next_count(v.counter),
        v.log.len() < 100 ==> apply_op(v, StateOp::Log(m)).log.drop_last() == v.log,
        v.log.len() >= 100 ==> apply_op(v, StateOp::Log(m)).log.drop_last() == v.log.drop_first(),
{
    assert(v.log.push(entry_text(next_count(v.counter), m)).drop_last() =~= v.log);
    assert(v.log.drop_first().push(entry_text(next_count(v.counter), m)).drop_last() =~= v.log.drop_first());
}

/// What is set is what is read back: after each setter the state holds the
/// value given, whatever it held before.
pub proof fn law_set_then_read(v: StateView, c: BrewConfig, t: TimerState, b: BrewState, on: bool, d: ScaleData)
    ensures
        apply_op(v, StateOp::Config(c)).config == c,
        apply_op(v, StateOp::Timer(t)).timer_state == t,
        apply_op(v, StateOp::Brew(b)).brew_state == b,
        apply_op(v, StateOp::Relay(on)).relay_enabled == on,
        apply_op(v, StateOp::Ble(on)).ble_connected == on,
        apply_op(v, StateOp::Wifi(on)).wifi_connected == on,
        apply_op(v, StateOp::ScaleData(d)).scale_data == Some(d),
        apply_op(v, StateOp::ResetToIdle).timer_state == TimerState::Idle,
        !apply_op(v, StateOp::ResetToIdle).relay_enabled,
{
}

} // verus!
