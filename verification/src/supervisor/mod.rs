//! The VPN supervisor's decisions: how it reconciles its state with
//! NetworkManager, connects, reconnects, and answers requests.
//!
//! Everything here is a function of plain values; the loop that talks to
//! NetworkManager and sleeps between polls runs outside the library and
//! feeds these functions what it observed.
use vstd::prelude::*;

pub mod connect;
pub mod reconnect;
pub mod response_builder;
pub mod sync;
pub mod system;

verus! {

/// Poll NetworkManager state every 2 seconds.
pub const NM_POLL_INTERVAL_SECS: u64 = 2;

/// Wait after `nmcli con up` before verifying a reconnection.
pub const CONNECTION_VERIFY_DELAY_SECS: u64 = 5;

/// Maximum number of reconnection attempts before giving up.
pub const MAX_RECONNECT_ATTEMPTS: u32 = 10;

/// Maximum number of connection attempts when connecting on request.
pub const MAX_CONNECT_ATTEMPTS: u32 = 3;

/// Base delay of the reconnect backoff, in seconds.
pub const RECONNECT_BASE_DELAY_SECS: u64 = 2;

/// Cap on the reconnect delay, in seconds.
pub const RECONNECT_MAX_DELAY_SECS: u64 = 30;

/// Grace period after an intentional disconnect, against false drop detection.
pub const POST_DISCONNECT_GRACE_SECS: u64 = 5;

/// Maximum number of polls that verify a disconnect.
pub const DISCONNECT_VERIFY_MAX_ATTEMPTS: u32 = 30;

/// Maximum number of polls that verify a connection after `nmcli con up`.
pub const CONNECTION_MONITOR_MAX_ATTEMPTS: u32 = 60;

/// Interval between connection monitoring polls, in milliseconds.
pub const CONNECTION_MONITOR_INTERVAL_MS: u64 = 500;

/// Interval between disconnect verification polls, in milliseconds.
pub const DISCONNECT_VERIFY_INTERVAL_MS: u64 = 500;

/// Settle time after a verified disconnect, before connecting elsewhere.
pub const POST_DISCONNECT_SETTLE_SECS: u64 = 3;

/// Pause between two connection attempts, in seconds.
pub const CONNECT_RETRY_PAUSE_SECS: u64 = 2;

/// Polls after which a connection that NetworkManager still reports
/// inactive counts as failed.
pub const INACTIVE_GRACE_POLLS: u32 = 10;

} // verus!
