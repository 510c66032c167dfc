//! Reconciling the supervisor's state with what NetworkManager reports.
use vstd::prelude::*;

use crate::text::str_eq;
use crate::state::{active_view, ActiveVpnInfo, NmVpnState, VpnState, VpnStateView};
use crate::supervisor::{NM_POLL_INTERVAL_SECS, POST_DISCONNECT_GRACE_SECS};

verus! {

/// What a sync asks the supervisor to do besides changing its state.
#[derive(Debug, PartialEq)]
pub enum SyncAction {
    /// Nothing.
    Nothing,
    /// The connection to `server` dropped and auto-reconnect is on:
    /// start reconnecting, from the first attempt.
    Reconnect { server: String },
    /// The connection dropped: tell the user.
    NotifyDropped,
}

/// `SyncAction` with its strings taken as character sequences.
pub enum SyncActionView {
    Nothing,
    Reconnect { server: Seq<char> },
    NotifyDropped,
}

impl View for SyncAction {
    type V = SyncActionView;

    open spec fn view(&self) -> SyncActionView {
        match self {
            SyncAction::Nothing => SyncActionView::Nothing,
            SyncAction::Reconnect { server } => SyncActionView::Reconnect { server: server@ },
            SyncAction::NotifyDropped => SyncActionView::NotifyDropped,
        }
    }
}

/// The name of the connection that NetworkManager reports fully activated.
pub open spec fn activated_name(active: Option<(Seq<char>, NmVpnState)>) -> Option<Seq<char>> {
    match active {
        Some((n, NmVpnState::Activated)) => Some(n),
        _ => None,
    }
}

/// One reconciliation of the supervisor's state `cur` with the connection
/// that NetworkManager reports: the new state, if it changes, and the
/// action to take.
pub open spec fn sync_spec(
    cur: VpnStateView,
    auto_reconnect: bool,
    active: Option<(Seq<char>, NmVpnState)>,
) -> (Option<VpnStateView>, SyncActionView) {
    match active {
        Some((name, NmVpnState::Activating)) => match cur {
            VpnStateView::Disconnected => (
                Some(VpnStateView::Connecting { server: name }),
                SyncActionView::Nothing,
            ),
            _ => (None, SyncActionView::Nothing),
        },
        _ => match (cur, activated_name(active)) {
            (VpnStateView::Connected { server }, None) => if auto_reconnect {
                (None, SyncActionView::Reconnect { server })
            } else {
                (Some(VpnStateView::Disconnected), SyncActionView::NotifyDropped)
            },
            (VpnStateView::Connected { server }, Some(n)) => if server != n {
                (Some(VpnStateView::Connected { server: n }), SyncActionView::Nothing)
            } else {
                (None, SyncActionView::Nothing)
            },
            (VpnStateView::Disconnected, Some(n)) => (
                Some(VpnStateView::Connected { server: n }),
                SyncActionView::Nothing,
            ),
            (VpnStateView::Connecting { server }, Some(n)) => if server == n {
                (Some(VpnStateView::Connected { server }), SyncActionView::Nothing)
            } else {
                (None, SyncActionView::Nothing)
            },
            (VpnStateView::Failed { .. }, Some(n)) => (
                Some(VpnStateView::Connected { server: n }),
                SyncActionView::Nothing,
            ),
            (VpnStateView::Failed { .. }, None) => (
                Some(VpnStateView::Disconnected),
                SyncActionView::Nothing,
            ),
            _ => (None, SyncActionView::Nothing),
        },
    }
}

/// The state after a forced resync (after a time jump such as sleep and wake).
pub open spec fn resync_spec(
    cur: VpnStateView,
    active: Option<(Seq<char>, NmVpnState)>,
) -> VpnStateView {
    match active {
        Some((n, NmVpnState::Activated)) => VpnStateView::Connected { server: n },
        Some((n, NmVpnState::Activating)) => VpnStateView::Connecting { server: n },
        Some(_) => VpnStateView::Disconnected,
        None => match cur {
            VpnStateView::Connecting { .. } => cur,
            VpnStateView::Reconnecting { .. } => cur,
            _ => VpnStateView::Disconnected,
        },
    }
}

fn same_name(a: &String, b: &String) -> (r: bool)
    ensures
        r == (a@ == b@),
{
    str_eq(a.as_str(), b.as_str())
}

/// One reconciliation of the supervisor's state with NetworkManager.
///
/// `in_grace` tells whether an intentional disconnect happened less than
/// the grace period ago; then nothing is looked at and nothing changes.
pub fn sync_decision(
    in_grace: bool,
    current: &VpnState,
    auto_reconnect: bool,
    active: Option<ActiveVpnInfo>,
) -> (r: (Option<VpnState>, SyncAction))
    ensures
        in_grace ==> r.0 is None && r.1@ == SyncActionView::Nothing,
        !in_grace ==> {
            let (s, a) = sync_spec(current@, auto_reconnect, active_view(active));
            &&& r.1@ == a
            &&& match r.0 {
                Some(x) => s == Some(x@),
                None => s is None,
            }
        },
{
    if in_grace {
        return (None, SyncAction::Nothing);
    }
    if let Some(info) = &active {
        if info.state == NmVpnState::Activating {
            return match current {
                VpnState::Disconnected => (
                    Some(VpnState::Connecting { server: info.name.clone() }),
                    SyncAction::Nothing,
                ),
                _ => (None, SyncAction::Nothing),
            };
        }
    }
    let activated: Option<String> = match active {
        Some(info) => if info.state == NmVpnState::Activated {
            Some(info.name)
        } else {
            None
        },
        None => None,
    };
    match (current, activated) {
        (VpnState::Connected { server }, None) => {
            if auto_reconnect {
                (None, SyncAction::Reconnect { server: server.clone() })
            } else {
                (Some(VpnState::Disconnected), SyncAction::NotifyDropped)
            }
        },
        (VpnState::Connected { server }, Some(n)) => {
            if !same_name(server, &n) {
                (Some(VpnState::Connected { server: n }), SyncAction::Nothing)
            } else {
                (None, SyncAction::Nothing)
            }
        },
        (VpnState::Disconnected, Some(n)) => (
            Some(VpnState::Connected { server: n }),
            SyncAction::Nothing,
        ),
        (VpnState::Connecting { server }, Some(n)) => {
            if same_name(server, &n) {
                (Some(VpnState::Connected { server: server.clone() }), SyncAction::Nothing)
            } else {
                (None, SyncAction::Nothing)
            }
        },
        (VpnState::Failed { .. }, Some(n)) => (
            Some(VpnState::Connected { server: n }),
            SyncAction::Nothing,
        ),
        (VpnState::Failed { .. }, None) => (Some(VpnState::Disconnected), SyncAction::Nothing),
        _ => (None, SyncAction::Nothing),
    }
}

/// The state after a forced resync with NetworkManager.
pub fn resync_state(current: &VpnState, active: Option<ActiveVpnInfo>) -> (r: VpnState)
    ensures
        r@ == resync_spec(current@, active_view(active)),
{
    match active {
        Some(info) => match info.state {
            NmVpnState::Activated => VpnState::Connected { server: info.name },
            NmVpnState::Activating => VpnState::Connecting { server: info.name },
            _ => VpnState::Disconnected,
        },
        None => match current {
            VpnState::Connecting { .. } => current.clone(),
            VpnState::Reconnecting { .. } => current.clone(),
            _ => VpnState::Disconnected,
        },
    }
}

/// Whether the time since an intentional disconnect is still within the
/// grace period.
pub fn in_grace_period(elapsed_secs: u64) -> (r: bool)
    ensures
        r == (elapsed_secs < POST_DISCONNECT_GRACE_SECS),
{
    elapsed_secs < POST_DISCONNECT_GRACE_SECS
}

/// What a polling tick does.
#[derive(Debug, Clone, Copy, PartialEq, Eq, Structural)]
pub enum PollAction {
    /// Ordinary reconciliation.
    Sync,
    /// The clock jumped (sleep and wake): resynchronise completely.
    Resync,
}

/// The action of a polling tick, given the time since the previous tick.
pub fn poll_action(elapsed_secs: u64, elapsed_subsec_nanos: u32) -> (r: PollAction)
    ensures
        r == (if elapsed_secs > NM_POLL_INTERVAL_SECS * 3 || (elapsed_secs == NM_POLL_INTERVAL_SECS
            * 3 && elapsed_subsec_nanos > 0) {
            PollAction::Resync
        } else {
            PollAction::Sync
        }),
{
    let limit = NM_POLL_INTERVAL_SECS * 3;
    if elapsed_secs > limit || (elapsed_secs == limit && elapsed_subsec_nanos > 0) {
        PollAction::Resync
    } else {
        PollAction::Sync
    }
}

/// The state after applying a sync outcome.
pub open spec fn after_sync(cur: VpnStateView, s: Option<VpnStateView>) -> VpnStateView {
    match s {
        Some(x) => x,
        None => cur,
    }
}

/// A sync only ever moves the state to what NetworkManager reports: a
/// fully activated connection makes it `Connected` to that connection, one
/// that is activating makes it `Connecting` to it, and no activated
/// connection makes it `Disconnected`.
pub proof fn lemma_sync_follows_network_manager(
    cur: VpnStateView,
    auto_reconnect: bool,
    active: Option<(Seq<char>, NmVpnState)>,
)
    ensures
        sync_spec(cur, auto_reconnect, active).0 matches Some(s) ==> match active {
            Some((n, NmVpnState::Activated)) => s == VpnStateView::Connected { server: n },
            Some((n, NmVpnState::Activating)) => s == VpnStateView::Connecting { server: n },
            _ => s == VpnStateView::Disconnected,
        },
{
}

/// Syncing twice with the same report changes nothing the second time,
/// unless the first sync started a reconnection.
pub proof fn lemma_sync_idempotent(
    cur: VpnStateView,
    auto_reconnect: bool,
    active: Option<(Seq<char>, NmVpnState)>,
)
    requires
        !(sync_spec(cur, auto_reconnect, active).1 is Reconnect),
    ensures
        ({
            let next = after_sync(cur, sync_spec(cur, auto_reconnect, active).0);
            sync_spec(next, auto_reconnect, active) == (
                None::<VpnStateView>,
                SyncActionView::Nothing,
            )
        }),
{
}

/// After a forced resync, an ordinary sync with the same report changes
/// nothing.
pub proof fn lemma_sync_after_resync_is_noop(
    cur: VpnStateView,
    auto_reconnect: bool,
    active: Option<(Seq<char>, NmVpnState)>,
)
    ensures
        sync_spec(resync_spec(cur, active), auto_reconnect, active) == (
            None::<VpnStateView>,
            SyncActionView::Nothing,
        ),
{
}

/// When NetworkManager reports a connection fully activated, a sync
/// adopts it: from disconnected or failed, and from a connection to a
/// different VPN, the state becomes connected to the reported one, and
/// a pending connection to that same VPN is confirmed. Nothing else is
/// asked of the supervisor.
pub proof fn lemma_sync_adopts_activated(cur: VpnStateView, auto_reconnect: bool, n: Seq<char>)
    ensures
        (cur is Disconnected || cur is Failed || (cur matches VpnStateView::Connected { server }
            && server != n) || (cur matches VpnStateView::Connecting { server } && server == n))
            ==> sync_spec(cur, auto_reconnect, Some((n, NmVpnState::Activated))) == (
            Some(VpnStateView::Connected { server: n }),
            SyncActionView::Nothing,
        ),
        sync_spec(VpnStateView::Disconnected, auto_reconnect, Some((n, NmVpnState::Activated))).0
            == Some(VpnStateView::Connected { server: n }),
{
}

} // verus!
