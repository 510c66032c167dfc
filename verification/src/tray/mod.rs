//! The system tray: the commands its menu sends to the supervisor, and
//! its icons.
use vstd::prelude::*;

pub mod drawing;

verus! {

/// A command from the tray menu to the supervisor.
#[derive(Debug, Clone, PartialEq)]
pub enum VpnCommand {
    /// Connect to the named VPN.
    Connect(String),
    /// Disconnect the current VPN.
    Disconnect,
    /// Turn the kill switch on or off.
    ToggleKillSwitch,
    /// Turn automatic reconnection on or off.
    ToggleAutoReconnect,
    /// Reload the list of VPN connections.
    RefreshConnections,
}

} // verus!
