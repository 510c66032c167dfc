//! Shroud: a NetworkManager VPN supervisor with a firewall kill switch and a
//! gateway mode.
//!
//! The library holds the decisions and the rules: which firewall commands
//! the kill switch and the gateway issue, how command output is parsed, how
//! the supervisor's state follows NetworkManager, and how connection and
//! reconnection proceed. Running commands, sleeping and talking to the
//! desktop happen in the program around it.
use vstd::prelude::*;

pub mod autostart;
pub mod config;
pub mod dbus;
pub mod gateway;
pub mod host;
pub mod ip;
pub mod killswitch;
pub mod nm;
pub mod ipc;
pub mod state;
pub mod supervisor;
pub mod text;
pub mod tray;

verus! {
} // verus!
