//! The relay that switches the espresso machine: its error and the
//! bookkeeping that decides when the pin must actually be driven.

use vstd::prelude::*;

verus! {

/// Errors of the relay.
#[derive(Debug, Clone, PartialEq, Eq)]
pub enum RelayError {
    GpioError(String),
}

/// The text of a relay error.
pub open spec fn relay_error_text(e: RelayError) -> Seq<char> {
    match e {
        RelayError::GpioError(m) => "GPIO error: "@ + m@,
    }
}

impl RelayError {
    /// The human-readable text of the error.
    pub fn message(&self) -> (r: String)
        ensures
            r@ == relay_error_text(*self),
    {
        match self {
            RelayError::GpioError(m) => String::from_str("GPIO error: ").concat(m.as_str()),
        }
    }
}

/// What the relay controller remembers: whether the relay is on and when it
/// was last commanded.
#[derive(Debug, Clone, Copy, PartialEq, Eq, Structural)]
pub struct RelayState {
    pub on: bool,
    pub last_command_ms: Option<u64>,
}

impl RelayState {
    /// Off, never commanded: the relay starts in the safe state.
    pub fn new() -> (r: Self)
        ensures
            !r.on,
            r.last_command_ms is None,
    {
        RelayState { on: false, last_command_ms: None }
    }

    /// Whether switching to `target` needs the pin driven: only when the
    /// relay is not already there.
    pub fn needs_switch(&self, target: bool) -> (r: bool)
        ensures
            r == (self.on != target),
    {
        self.on != target
    }

    /// Records a successful switch to `target` at `now_ms`.
    pub fn record_switch(&mut self, target: bool, now_ms: u64)
        ensures
            final(self).on == target,
            final(self).last_command_ms == Some(now_ms),
    {
        self.on = target;
        self.last_command_ms = Some(now_ms);
    }

    /// Records the self-test, which leaves the relay off without a command
    /// time.
    pub fn record_test(&mut self)
        ensures
            !final(self).on,
            final(self).last_command_ms == old(self).last_command_ms,
    {
        self.on = false;
    }
}

} // verus!
