//! Safety supervision: when a running shot must be stopped at once, and what
//! the health check warns about.

use vstd::prelude::*;
use crate::text::{decimal, push_decimal, push_text};
use crate::types::{elapsed_ms, elapsed_since, SystemState, TimerState};

verus! {

/// Longest silence of the scale tolerated while brewing.
pub const WATCHDOG_TIMEOUT_MS: u64 = 10000;
/// Age of the last reading from which the health check warns.
pub const STALE_DATA_WARNING_MS: u64 = 5000;
/// Battery level below which the health check warns.
pub const LOW_BATTERY_PERCENT: u8 = 20;

/// Watches data arrival and the relay.
pub struct SafetyController {
    pub last_data_received_ms: Option<u64>,
    pub last_relay_state: bool,
    pub watchdog_timeout_ms: u64,
}

/// A running shot must stop when the scale is disconnected, when no reading
/// ever arrived or the last one is older than the watchdog timeout, when
/// Wi-Fi is lost, or when an error is recorded. Nothing is stopped when the
/// timer is not running.
pub open spec fn must_stop(
    state: SystemState,
    last_data_ms: Option<u64>,
    timeout_ms: u64,
    now_ms: u64,
) -> bool {
    &&& state.timer_state == TimerState::Running
    &&& {
        ||| !state.ble_connected
        ||| match last_data_ms {
            Some(t) => elapsed_ms(now_ms, t) > timeout_ms,
            None => true,
        }
        ||| !state.wifi_connected
        ||| state.last_error is Some
    }
}

/// The warnings of the health check, in order.
pub open spec fn health_warnings(state: SystemState, last_data_ms: Option<u64>, now_ms: u64) -> Seq<Seq<char>> {
    let ble = if !state.ble_connected { seq!["BLE not connected"@] } else { Seq::empty() };
    let wifi = if !state.wifi_connected { seq!["Wi-Fi not connected"@] } else { Seq::empty() };
    let data = match last_data_ms {
        Some(t) => if elapsed_ms(now_ms, t) > STALE_DATA_WARNING_MS {
            seq!["No scale data for "@ + decimal((elapsed_ms(now_ms, t) / 1000) as nat) + "s"@]
        } else {
            Seq::empty()
        },
        None => seq!["No scale data received"@],
    };
    let error = match state.last_error {
        Some(e) => seq!["System error: "@ + e@],
        None => Seq::empty(),
    };
    let battery = match state.scale_data {
        Some(d) => if d.battery_percent < LOW_BATTERY_PERCENT {
            seq!["Low battery: "@ + decimal(d.battery_percent as nat) + "%"@]
        } else {
            Seq::empty()
        },
        None => Seq::empty(),
    };
    ble + wifi + data + error + battery
}

impl SafetyController {
    /// No data seen yet, relay off, ten-second watchdog.
    pub fn new() -> (r: Self)
        ensures
            r.last_data_received_ms is None,
            !r.last_relay_state,
            r.watchdog_timeout_ms == WATCHDOG_TIMEOUT_MS,
    {
        SafetyController {
            last_data_received_ms: None,
            last_relay_state: false,
            watchdog_timeout_ms: WATCHDOG_TIMEOUT_MS,
        }
    }

    /// Notes that a reading arrived at `now_ms`.
    pub fn update_data_received(&mut self, now_ms: u64)
        ensures
            final(self).last_data_received_ms == Some(now_ms),
            final(self).last_relay_state == old(self).last_relay_state,
            final(self).watchdog_timeout_ms == old(self).watchdog_timeout_ms,
    {
        self.last_data_received_ms = Some(now_ms);
    }

    /// Whether the shot must be stopped now.
    pub fn should_emergency_stop(&mut self, state: &SystemState, now_ms: u64) -> (r: bool)
        ensures
            r == must_stop(*state, old(self).last_data_received_ms, old(self).watchdog_timeout_ms, now_ms),
            *final(self) == *old(self),
    {
        if state.timer_state == TimerState::Running {
            if !state.ble_connected {
                return true;
            }
            match self.last_data_received_ms {
                Some(t) => {
                    if elapsed_since(now_ms, t) > self.watchdog_timeout_ms {
                        return true;
                    }
                },
                None => {
                    return true;
                },
            }
            if !state.wifi_connected {
                return true;
            }
            if state.last_error.is_some() {
                return true;
            }
        }
        false
    }

    /// Handles an emergency stop: when the relay was on, it is marked off and
    /// the result says the relay must be switched off immediately.
    pub fn handle_emergency_stop(&mut self) -> (turn_off_now: bool)
        ensures
            turn_off_now == old(self).last_relay_state,
            !final(self).last_relay_state,
            final(self).last_data_received_ms == old(self).last_data_received_ms,
            final(self).watchdog_timeout_ms == old(self).watchdog_timeout_ms,
    {
        if self.last_relay_state {
            self.last_relay_state = false;
            true
        } else {
            false
        }
    }

    /// Records the relay state.
    pub fn update_relay_state(&mut self, enabled: bool)
        ensures
            final(self).last_relay_state == enabled,
            final(self).last_data_received_ms == old(self).last_data_received_ms,
            final(self).watchdog_timeout_ms == old(self).watchdog_timeout_ms,
    {
        self.last_relay_state = enabled;
    }

    /// The health warnings for `state` at `now_ms`.
    pub fn check_system_health(&self, state: &SystemState, now_ms: u64) -> (r: Vec<String>)
        ensures
            r@.map_values(|s: String| s@) == health_warnings(*state, self.last_data_received_ms, now_ms),
    {
        let mut warnings: Vec<String> = Vec::new();
        if !state.ble_connected {
            warnings.push(String::from_str("BLE not connected"));
        }
        if !state.wifi_connected {
            warnings.push(String::from_str("Wi-Fi not connected"));
        }
        match self.last_data_received_ms {
            Some(t) => {
                let age = elapsed_since(now_ms, t);
                if age > STALE_DATA_WARNING_MS {
                    let mut w = String::from_str("No scale data for ");
                    push_decimal(&mut w, age / 1000);
                    push_text(&mut w, "s");
                    warnings.push(w);
                }
            },
            None => {
                warnings.push(String::from_str("No scale data received"));
            },
        }
        match &state.last_error {
            Some(e) => {
                warnings.push(String::from_str("System error: ").concat(e.as_str()));
            },
            None => {},
        }
        match state.scale_data {
            Some(d) => {
                if d.battery_percent < LOW_BATTERY_PERCENT {
                    let mut w = String::from_str("Low battery: ");
                    push_decimal(&mut w, d.battery_percent as u64);
                    push_text(&mut w, "%");
                    warnings.push(w);
                }
            },
            None => {},
        }
        proof {
            assert(warnings@.map_values(|s: String| s@) =~= health_warnings(
                *state,
                self.last_data_received_ms,
                now_ms,
            ));
        }
        warnings
    }
}

/// The safety check never stops a shot unless the timer runs, and always
/// stops a running one whose scale is disconnected or silent past the
/// watchdog timeout.
pub proof fn law_stop_only_while_running(state: SystemState, last_data_ms: Option<u64>, timeout_ms: u64, now_ms: u64)
    ensures
        must_stop(state, last_data_ms, timeout_ms, now_ms) ==> state.timer_state == TimerState::Running,
        state.timer_state == TimerState::Running && !state.ble_connected ==> must_stop(
            state,
            last_data_ms,
            timeout_ms,
            now_ms,
        ),
        state.timer_state == TimerState::Running && last_data_ms is None ==> must_stop(
            state,
            last_data_ms,
            timeout_ms,
            now_ms,
        ),
{
}

} // verus!
