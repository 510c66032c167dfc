//! Errors of the sudo-based firewall backends.
//!
//! All firewall operations of these backends (iptables, ip6tables,
//! nftables) funnel into `KillSwitchError`, so that callers can react to
//! permission failures, missing binaries, command failures and process
//! I/O errors uniformly.
use vstd::prelude::*;

verus! {

/// Errors of kill switch operations run through `sudo`.
#[derive(Debug, PartialEq)]
pub enum KillSwitchError {
    /// iptables is not installed or not in PATH.
    NotFound,
    /// Permission denied: passwordless sudo is not set up.
    Permission,
    /// The iptables/sudo process could not be spawned (the OS error's text).
    Spawn(String),
    /// The iptables command failed (its error output or a description).
    Command(String),
    /// Writing to the process failed (the OS error's text).
    Write(String),
    /// Waiting for the process failed (the OS error's text).
    Wait(String),
}

/// `KillSwitchError` with its strings taken as character sequences.
pub enum KillSwitchErrorView {
    NotFound,
    Permission,
    Spawn(Seq<char>),
    Command(Seq<char>),
    Write(Seq<char>),
    Wait(Seq<char>),
}

impl View for KillSwitchError {
    type V = KillSwitchErrorView;

    open spec fn view(&self) -> KillSwitchErrorView {
        match self {
            KillSwitchError::NotFound => KillSwitchErrorView::NotFound,
            KillSwitchError::Permission => KillSwitchErrorView::Permission,
            KillSwitchError::Spawn(s) => KillSwitchErrorView::Spawn(s@),
            KillSwitchError::Command(s) => KillSwitchErrorView::Command(s@),
            KillSwitchError::Write(s) => KillSwitchErrorView::Write(s@),
            KillSwitchError::Wait(s) => KillSwitchErrorView::Wait(s@),
        }
    }
}

/// The message of an error.
pub open spec fn error_message(e: KillSwitchErrorView) -> Seq<char> {
    match e {
        KillSwitchErrorView::NotFound => "iptables is not available. Install with: sudo apt install iptables"@,
        KillSwitchErrorView::Permission => "Permission denied. Kill switch requires sudo access. Run: ./setup.sh --install-sudoers"@,
        KillSwitchErrorView::Spawn(s) => "Failed to spawn iptables process: "@ + s,
        KillSwitchErrorView::Command(s) => "iptables command failed: "@ + s,
        KillSwitchErrorView::Write(s) => "Failed to write to process: "@ + s,
        KillSwitchErrorView::Wait(s) => "Failed waiting for iptables process: "@ + s,
    }
}

impl KillSwitchError {
    /// The message of the error.
    pub fn message(&self) -> (r: String)
        ensures
            r@ == error_message(self@),
    {
        match self {
            KillSwitchError::NotFound => String::from_str(
                "iptables is not available. Install with: sudo apt install iptables",
            ),
            KillSwitchError::Permission => String::from_str(
                "Permission denied. Kill switch requires sudo access. Run: ./setup.sh --install-sudoers",
            ),
            KillSwitchError::Spawn(s) => {
                let mut m = String::from_str("Failed to spawn iptables process: ");
                m.append(s.as_str());
                m
            },
            KillSwitchError::Command(s) => {
                let mut m = String::from_str("iptables command failed: ");
                m.append(s.as_str());
                m
            },
            KillSwitchError::Write(s) => {
                let mut m = String::from_str("Failed to write to process: ");
                m.append(s.as_str());
                m
            },
            KillSwitchError::Wait(s) => {
                let mut m = String::from_str("Failed waiting for iptables process: ");
                m.append(s.as_str());
                m
            },
        }
    }
}

} // verus!
