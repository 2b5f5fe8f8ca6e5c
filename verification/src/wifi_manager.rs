//! Decisions of the Wi-Fi manager: the status it shows and how starting up
//! proceeds between provisioning and connecting with stored credentials.

use vstd::prelude::*;

verus! {

/// The status shown for the Wi-Fi connection.
pub open spec fn wifi_status_text(connected: bool, provisioned: bool) -> Seq<char> {
    if connected {
        "Connected"@
    } else if provisioned {
        "Disconnected"@
    } else {
        "Not Provisioned"@
    }
}

/// The status shown for the Wi-Fi connection.
pub fn wifi_status(connected: bool, provisioned: bool) -> (r: String)
    ensures
        r@ == wifi_status_text(connected, provisioned),
{
    if connected {
        String::from_str("Connected")
    } else if provisioned {
        String::from_str("Disconnected")
    } else {
        String::from_str("Not Provisioned")
    }
}

/// Base of the device name advertised while provisioning.
pub const PROVISIONING_NAME_BASE: &'static str = "GravelScale";
/// Proof of possession asked by provisioning.
pub const PROVISIONING_POP: &'static str = "gravel123";
/// Pause before retrying after a network problem.
pub const NETWORK_RETRY_DELAY_MS: u64 = 5000;

/// What start-up learned from the hardware.
#[derive(Debug, Clone, Copy, PartialEq, Eq, Structural)]
pub enum WifiStartEvent {
    /// Whether credentials are stored.
    ProvisioningStatus { provisioned: bool },
    /// Whether the network came up after provisioning.
    AfterProvisioning { netif_up: bool },
    /// Result of connecting with stored credentials: whether the connect
    /// call succeeded, whether its error was a bad SSID or password, and
    /// whether the network came up.
    AfterStoredConnect { connect_ok: bool, bad_credentials: bool, netif_up: bool },
}

/// What start-up does next.
#[derive(Debug, Clone, Copy, PartialEq, Eq, Structural)]
pub enum WifiStartStep {
    /// Provision over BLE as `<base>-<MAC suffix>` with the proof of possession.
    StartProvisioning,
    /// Connect with the stored credentials.
    ConnectStored,
    /// Forget the credentials and check the status again.
    ResetAndRetry,
    /// Wait, then check the status again.
    RetryAfter { delay_ms: u64 },
    /// Start-up is over: whether Wi-Fi is connected and whether the BLE stack
    /// must be re-initialised for the scale.
    Done { connected: bool, ble_needs_reset: bool },
}

/// The next step of Wi-Fi start-up. Without provisioning support start-up
/// ends unconnected at once.
pub open spec fn start_step(provisioning_available: bool, event: WifiStartEvent) -> WifiStartStep {
    if !provisioning_available {
        WifiStartStep::Done { connected: false, ble_needs_reset: false }
    } else {
        match event {
            WifiStartEvent::ProvisioningStatus { provisioned } => if provisioned {
                WifiStartStep::ConnectStored
            } else {
                WifiStartStep::StartProvisioning
            },
            WifiStartEvent::AfterProvisioning { netif_up } => if netif_up {
                WifiStartStep::Done { connected: true, ble_needs_reset: true }
            } else {
                WifiStartStep::ResetAndRetry
            },
            WifiStartEvent::AfterStoredConnect { connect_ok, bad_credentials, netif_up } => if connect_ok {
                if netif_up {
                    WifiStartStep::Done { connected: true, ble_needs_reset: false }
                } else {
                    WifiStartStep::ResetAndRetry
                }
            } else if bad_credentials {
                WifiStartStep::ResetAndRetry
            } else {
                WifiStartStep::RetryAfter { delay_ms: NETWORK_RETRY_DELAY_MS }
            },
        }
    }
}

/// The next step of Wi-Fi start-up.
pub fn wifi_start_step(provisioning_available: bool, event: WifiStartEvent) -> (r: WifiStartStep)
    ensures
        r == start_step(provisioning_available, event),
{
    if !provisioning_available {
        return WifiStartStep::Done { connected: false, ble_needs_reset: false };
    }
    match event {
        WifiStartEvent::ProvisioningStatus { provisioned } => {
            if provisioned {
                WifiStartStep::ConnectStored
            } else {
                WifiStartStep::StartProvisioning
            }
        },
        WifiStartEvent::AfterProvisioning { netif_up } => {
            if netif_up {
                WifiStartStep::Done { connected: true, ble_needs_reset: true }
            } else {
                WifiStartStep::ResetAndRetry
            }
        },
        WifiStartEvent::AfterStoredConnect { connect_ok, bad_credentials, netif_up } => {
            if connect_ok {
                if netif_up {
                    WifiStartStep::Done { connected: true, ble_needs_reset: false }
                } else {
                    WifiStartStep::ResetAndRetry
                }
            } else if bad_credentials {
                WifiStartStep::ResetAndRetry
            } else {
                WifiStartStep::RetryAfter { delay_ms: NETWORK_RETRY_DELAY_MS }
            }
        },
    }
}

/// Start-up only reports a BLE reset after provisioning, and only a
/// connected start-up after the network came up.
pub proof fn law_ble_reset_only_after_provisioning(available: bool, event: WifiStartEvent)
    ensures
        start_step(available, event) == (WifiStartStep::Done { connected: true, ble_needs_reset: true }) ==> (event
            == WifiStartEvent::AfterProvisioning { netif_up: true }),
        (start_step(available, event) matches WifiStartStep::Done { connected, .. } && connected) ==> available,
{
}

} // verus!
