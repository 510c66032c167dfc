//! The supervisor's lifecycle: the single-instance lock, the steps of a
//! shutdown, and which binary a restart runs.
use vstd::prelude::*;

use crate::autostart::{join_path, join_spec};
use crate::host::path_exists;
use crate::text::{
    contains, contains_str, decimal, parse_unsigned, parse_unsigned_str, push_decimal, trim,
    trim_end_matches, trim_end_matches_str, trim_str,
};

verus! {

// ---------------------------------------------------------------------------
// Instance lock
// ---------------------------------------------------------------------------

/// Name of the lock file in the runtime directory.
pub const LOCK_FILE_NAME: &'static str = "openvpn-tray.lock";

/// The lock file's path in the runtime directory (`$XDG_RUNTIME_DIR`).
pub fn lock_file_path(runtime_dir: &str) -> (r: String)
    ensures
        r@ == join_spec(runtime_dir@, LOCK_FILE_NAME@),
{
    join_path(runtime_dir, LOCK_FILE_NAME)
}

/// The error when another instance holds the lock: the lock file holds
/// that instance's PID, which is quoted when it reads as one.
pub open spec fn lock_conflict_spec(contents: Seq<char>) -> Seq<char> {
    match parse_unsigned(trim(contents), u32::MAX as nat) {
        Some(pid) => "Another instance is already running (PID "@ + decimal(pid) + ")"@,
        None => "Another instance is already running"@,
    }
}

/// The error reported when another instance holds the lock, given what
/// its lock file contains.
pub fn lock_conflict_message(contents: &str) -> (r: String)
    ensures
        r@ == lock_conflict_spec(contents@),
{
    let t = trim_str(contents);
    let mut r = String::from_str("Another instance is already running");
    match parse_unsigned_str(t.as_str(), 0xffff_ffff) {
        Some(pid) => {
            r.append(" (PID ");
            push_decimal(&mut r, pid as u128);
            r.append(")");
            proof {
                reveal_strlit("Another instance is already running");
                reveal_strlit(" (PID ");
                reveal_strlit("Another instance is already running (PID ");
                assert("Another instance is already running"@ + " (PID "@
                    =~= "Another instance is already running (PID "@);
            }
        },
        None => {},
    }
    r
}

// ---------------------------------------------------------------------------
// Shutdown
// ---------------------------------------------------------------------------

/// One step of shutting down, in the order the program performs them.
#[derive(Debug, Clone, Copy, PartialEq, Eq)]
pub enum ShutdownStep {
    /// Remove the kill switch rules; a failure is reported with the
    /// notice of `cleanup_failure_notice`.
    CleanUpKillSwitch,
    /// Tell the user the program is shutting down, and pause this many
    /// milliseconds so that the notification shows.
    AnnounceShutdown { pause_ms: u64 },
    /// Remove the instance lock file.
    ReleaseLock,
    /// Remove the control socket.
    RemoveSocket,
    /// Ask the main loop to exit because the user quit.
    RequestExit,
}

/// The steps of a shutdown: requested by the user (`user_quit`) or by the
/// program itself on a signal.
pub open spec fn shutdown_spec(kill_switch_enabled: bool, user_quit: bool) -> Seq<ShutdownStep> {
    let cleanup = if kill_switch_enabled {
        seq![ShutdownStep::CleanUpKillSwitch]
    } else {
        seq![]
    };
    if user_quit {
        cleanup + seq![
            ShutdownStep::AnnounceShutdown { pause_ms: 300 },
            ShutdownStep::ReleaseLock,
            ShutdownStep::RemoveSocket,
            ShutdownStep::RequestExit,
        ]
    } else {
        cleanup + seq![ShutdownStep::ReleaseLock, ShutdownStep::RemoveSocket]
    }
}

/// The steps of a shutdown.
pub fn shutdown_steps(kill_switch_enabled: bool, user_quit: bool) -> (r: Vec<ShutdownStep>)
    ensures
        r@ == shutdown_spec(kill_switch_enabled, user_quit),
{
    let mut r: Vec<ShutdownStep> = Vec::new();
    if kill_switch_enabled {
        r.push(ShutdownStep::CleanUpKillSwitch);
    }
    if user_quit {
        r.push(ShutdownStep::AnnounceShutdown { pause_ms: 300 });
    }
    r.push(ShutdownStep::ReleaseLock);
    r.push(ShutdownStep::RemoveSocket);
    if user_quit {
        r.push(ShutdownStep::RequestExit);
    }
    proof {
        assert(r@ =~= shutdown_spec(kill_switch_enabled, user_quit));
    }
    r
}

/// Every shutdown releases the lock and removes the socket, and the kill
/// switch rules go first whenever the kill switch is on.
pub proof fn lemma_shutdown_cleans_up(kill_switch_enabled: bool, user_quit: bool)
    ensures
        shutdown_spec(kill_switch_enabled, user_quit).contains(ShutdownStep::ReleaseLock),
        shutdown_spec(kill_switch_enabled, user_quit).contains(ShutdownStep::RemoveSocket),
        kill_switch_enabled ==> shutdown_spec(kill_switch_enabled, user_quit)[0]
            == ShutdownStep::CleanUpKillSwitch,
{
    let s = shutdown_spec(kill_switch_enabled, user_quit);
    let k: int = if kill_switch_enabled {
        1
    } else {
        0
    };
    let a: int = if user_quit {
        1
    } else {
        0
    };
    assert(s[k + a] == ShutdownStep::ReleaseLock);
    assert(s[k + a + 1] == ShutdownStep::RemoveSocket);
}

// ---------------------------------------------------------------------------
// Restart
// ---------------------------------------------------------------------------

/// What Linux appends to the path of a running binary whose file was
/// removed.
pub const DELETED_MARK: &'static str = " (deleted)";

/// The refusal when no binary can safely be restarted.
pub const RESTART_REFUSED: &'static str =
    "Running binary has been deleted. Cannot safely restart. Please restart manually: shroud";

/// Which binary a restart runs. The running binary's path serves while it
/// exists and is not marked deleted. A binary that was replaced during an
/// update shows as deleted; then the path without the mark serves if a
/// file is there. No other path is ever used.
pub open spec fn restart_spec(exe: Seq<char>, exe_exists: bool, unmarked_exists: bool) -> Result<
    Seq<char>,
    Seq<char>,
> {
    if exe_exists && !contains(exe, DELETED_MARK@) {
        Ok(exe)
    } else if contains(exe, DELETED_MARK@) && unmarked_exists {
        Ok(trim_end_matches(exe, DELETED_MARK@))
    } else {
        Err(RESTART_REFUSED@)
    }
}

/// The view of a `Result` of strings.
pub open spec fn result_view(r: Result<String, String>) -> Result<Seq<char>, Seq<char>> {
    match r {
        Ok(s) => Ok(s@),
        Err(e) => Err(e@),
    }
}

/// Decides which binary a restart runs: `exe` is the running binary's
/// path, `exe_exists` whether a file is there, `unmarked_exists` whether a
/// file is at the path without the deleted mark.
pub fn restart_decision(exe: &str, exe_exists: bool, unmarked_exists: bool) -> (r: Result<
    String,
    String,
>)
    ensures
        result_view(r) == restart_spec(exe@, exe_exists, unmarked_exists),
{
    let deleted = contains_str(exe, DELETED_MARK);
    if exe_exists && !deleted {
        return Ok(String::from_str(exe));
    }
    if deleted && unmarked_exists {
        proof {
            reveal_strlit(" (deleted)");
        }
        return Ok(trim_end_matches_str(exe, DELETED_MARK));
    }
    Err(String::from_str(RESTART_REFUSED))
}

/// Resolves the binary to restart from the running binary's path, as the
/// program got it (or the error it got instead). The file system is
/// probed here: whatever it answers, the result follows `restart_spec`.
pub fn resolve_restart_path(exe: Result<String, String>) -> (r: Result<String, String>)
    ensures
        match exe {
            Err(e) => result_view(r) == Err::<Seq<char>, Seq<char>>(
                "Failed to get executable path: "@ + e@,
            ),
            Ok(p) => exists|a: bool, b: bool| result_view(r) == #[trigger] restart_spec(p@, a, b),
        },
{
    match exe {
        Err(e) => {
            let mut m = String::from_str("Failed to get executable path: ");
            m.append(e.as_str());
            Err(m)
        },
        Ok(p) => {
            let exe_exists = path_exists(p.as_str());
            let deleted = contains_str(p.as_str(), DELETED_MARK);
            let unmarked_exists = if !(exe_exists && !deleted) && deleted {
                proof {
                    reveal_strlit(" (deleted)");
                }
                let unmarked = trim_end_matches_str(p.as_str(), DELETED_MARK);
                path_exists(unmarked.as_str())
            } else {
                false
            };
            let r = restart_decision(p.as_str(), exe_exists, unmarked_exists);
            proof {
                assert(result_view(r) == restart_spec(p@, exe_exists, unmarked_exists));
            }
            r
        },
    }
}

/// A restart only ever runs the running binary's own path, or that path
/// with the deleted mark removed.
pub proof fn lemma_restart_stays_in_place(exe: Seq<char>, exe_exists: bool, unmarked_exists: bool)
    ensures
        restart_spec(exe, exe_exists, unmarked_exists) matches Ok(p) ==> p == exe || p
            == trim_end_matches(exe, DELETED_MARK@),
        !exe_exists && !unmarked_exists ==> restart_spec(exe, exe_exists, unmarked_exists) == Err::<
            Seq<char>,
            Seq<char>,
        >(RESTART_REFUSED@),
{
}

} // verus!
