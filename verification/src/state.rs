//! VPN state types: the supervisor's own view of the connection and what
//! NetworkManager reports.
use vstd::prelude::*;

verus! {

/// The supervisor's state of the VPN connection.
#[derive(Debug, PartialEq)]
pub enum VpnState {
    Disconnected,
    Connecting { server: String },
    Connected { server: String },
    Reconnecting { server: String, attempt: u32, max_attempts: u32 },
    Degraded { server: String },
    Failed { server: String, reason: String },
}

/// `VpnState` with its strings taken as character sequences.
pub enum VpnStateView {
    Disconnected,
    Connecting { server: Seq<char> },
    Connected { server: Seq<char> },
    Reconnecting { server: Seq<char>, attempt: u32, max_attempts: u32 },
    Degraded { server: Seq<char> },
    Failed { server: Seq<char>, reason: Seq<char> },
}

impl View for VpnState {
    type V = VpnStateView;

    open spec fn view(&self) -> VpnStateView {
        match self {
            VpnState::Disconnected => VpnStateView::Disconnected,
            VpnState::Connecting { server } => VpnStateView::Connecting { server: server@ },
            VpnState::Connected { server } => VpnStateView::Connected { server: server@ },
            VpnState::Reconnecting { server, attempt, max_attempts } => VpnStateView::Reconnecting {
                server: server@,
                attempt: *attempt,
                max_attempts: *max_attempts,
            },
            VpnState::Degraded { server } => VpnStateView::Degraded { server: server@ },
            VpnState::Failed { server, reason } => VpnStateView::Failed {
                server: server@,
                reason: reason@,
            },
        }
    }
}

impl VpnStateView {
    /// The server that the state is about, if any.
    pub open spec fn server(self) -> Option<Seq<char>> {
        match self {
            VpnStateView::Disconnected => None,
            VpnStateView::Connecting { server } => Some(server),
            VpnStateView::Connected { server } => Some(server),
            VpnStateView::Reconnecting { server, .. } => Some(server),
            VpnStateView::Degraded { server } => Some(server),
            VpnStateView::Failed { server, .. } => Some(server),
        }
    }
}

impl Clone for VpnState {
    fn clone(&self) -> (r: Self)
        ensures
            r@ == self@,
    {
        match self {
            VpnState::Disconnected => VpnState::Disconnected,
            VpnState::Connecting { server } => VpnState::Connecting { server: server.clone() },
            VpnState::Connected { server } => VpnState::Connected { server: server.clone() },
            VpnState::Reconnecting { server, attempt, max_attempts } => VpnState::Reconnecting {
                server: server.clone(),
                attempt: *attempt,
                max_attempts: *max_attempts,
            },
            VpnState::Degraded { server } => VpnState::Degraded { server: server.clone() },
            VpnState::Failed { server, reason } => VpnState::Failed {
                server: server.clone(),
                reason: reason.clone(),
            },
        }
    }
}

impl VpnState {
    /// The server that the state is about, if any.
    pub fn server_name(&self) -> (r: Option<&str>)
        ensures
            match r {
                Some(s) => self@.server() == Some(s@),
                None => self@.server() is None,
            },
    {
        match self {
            VpnState::Disconnected => None,
            VpnState::Connecting { server } => Some(server.as_str()),
            VpnState::Connected { server } => Some(server.as_str()),
            VpnState::Reconnecting { server, .. } => Some(server.as_str()),
            VpnState::Degraded { server } => Some(server.as_str()),
            VpnState::Failed { server, .. } => Some(server.as_str()),
        }
    }
}

/// A VPN connection's state as NetworkManager reports it.
#[derive(Debug, Clone, Copy, PartialEq, Eq, Structural)]
pub enum NmVpnState {
    Activated,
    Activating,
    Deactivating,
    Inactive,
}

/// The active VPN connection that NetworkManager reports.
#[derive(Debug, PartialEq)]
pub struct ActiveVpnInfo {
    pub name: String,
    pub state: NmVpnState,
}

impl View for ActiveVpnInfo {
    type V = (Seq<char>, NmVpnState);

    open spec fn view(&self) -> (Seq<char>, NmVpnState) {
        (self.name@, self.state)
    }
}

/// The view of an optional active connection.
pub open spec fn active_view(a: Option<ActiveVpnInfo>) -> Option<(Seq<char>, NmVpnState)> {
    match a {
        Some(i) => Some(i@),
        None => None,
    }
}

} // verus!
