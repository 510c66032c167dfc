//! The outcome of a kill switch cleanup at shutdown.
use vstd::prelude::*;

verus! {

/// The outcome of removing the kill switch rules.
#[derive(Debug, PartialEq)]
pub enum CleanupResult {
    /// Rules were found and removed.
    Cleaned,
    /// No rules were in place.
    NothingToClean,
    /// Removing the rules failed (the reason).
    Failed(String),
}

/// The notification (title, body) that a shutdown cleanup outcome calls
/// for: only a failure is reported to the user.
pub fn cleanup_failure_notice(result: &CleanupResult) -> (r: Option<(&'static str, &'static str)>)
    ensures
        match r {
            Some((t, b)) => result is Failed && t@ == "Cleanup Failed"@ && b@
                == "Firewall rules may need manual cleanup. See logs."@,
            None => !(result is Failed),
        },
{
    match result {
        CleanupResult::Failed(_) => Some(
            ("Cleanup Failed", "Firewall rules may need manual cleanup. See logs."),
        ),
        _ => None,
    }
}

} // verus!
