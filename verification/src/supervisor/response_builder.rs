//! Answers to client requests and the classification of NetworkManager
//! events, as functions of the supervisor's state.
use vstd::prelude::*;

use crate::dbus::{NmEvent, NmEventView};
use crate::ipc::{opt_str_view, IpcResponse, IpcResponseView, VpnConnectionInfo, VpnConnectionInfoView};
use crate::state::{VpnState, VpnStateView};
use crate::text::{push_decimal, decimal, str_eq};

verus! {

/// The state line of a status answer.
pub open spec fn status_text(s: VpnStateView) -> Seq<char> {
    match s {
        VpnStateView::Disconnected => "Disconnected"@,
        VpnStateView::Connecting { server } => "Connecting to "@ + server,
        VpnStateView::Connected { server } => "Connected to "@ + server,
        VpnStateView::Reconnecting { server, attempt, max_attempts } => "Reconnecting to "@ + server
            + " ("@ + decimal(attempt as nat) + "/"@ + decimal(max_attempts as nat) + ")"@,
        VpnStateView::Degraded { server } => "Degraded: "@ + server,
        VpnStateView::Failed { server, reason } => "Failed: "@ + server + " — "@ + reason,
    }
}

/// The status answer for state `s`.
pub open spec fn status_response_spec(s: VpnStateView, kill_switch_enabled: bool) -> IpcResponseView {
    IpcResponseView::Status {
        connected: s is Connected || s is Degraded,
        vpn_name: s.server(),
        vpn_type: None,
        state: status_text(s),
        kill_switch_enabled,
    }
}

/// Builds the status answer from the current state.
pub fn build_status_response(state: &VpnState, kill_switch_enabled: bool) -> (r: IpcResponse)
    ensures
        r@ == status_response_spec(state@, kill_switch_enabled),
{
    let (connected, vpn_name, state_str) = match state {
        VpnState::Disconnected => (false, None, String::from_str("Disconnected")),
        VpnState::Connecting { server } => {
            let mut t = String::from_str("Connecting to ");
            t.append(server.as_str());
            (false, Some(server.clone()), t)
        },
        VpnState::Connected { server } => {
            let mut t = String::from_str("Connected to ");
            t.append(server.as_str());
            (true, Some(server.clone()), t)
        },
        VpnState::Reconnecting { server, attempt, max_attempts } => {
            let mut t = String::from_str("Reconnecting to ");
            t.append(server.as_str());
            t.append(" (");
            push_decimal(&mut t, *attempt as u128);
            t.append("/");
            push_decimal(&mut t, *max_attempts as u128);
            t.append(")");
            (false, Some(server.clone()), t)
        },
        VpnState::Degraded { server } => {
            let mut t = String::from_str("Degraded: ");
            t.append(server.as_str());
            (true, Some(server.clone()), t)
        },
        VpnState::Failed { server, reason } => {
            let mut t = String::from_str("Failed: ");
            t.append(server.as_str());
            t.append(" — ");
            t.append(reason.as_str());
            (false, Some(server.clone()), t)
        },
    };
    IpcResponse::Status {
        connected,
        vpn_name,
        vpn_type: None,
        state: state_str,
        kill_switch_enabled,
    }
}

/// The listing entry of connection `name`.
pub open spec fn list_entry(name: Seq<char>, active: Option<Seq<char>>) -> VpnConnectionInfoView {
    VpnConnectionInfoView {
        name,
        vpn_type: Seq::empty(),
        status: if active == Some(name) {
            "active"@
        } else {
            "available"@
        },
    }
}

/// The listing of connections `vpns`, with `active` marked active.
pub open spec fn list_spec(vpns: Seq<String>, active: Option<Seq<char>>) -> Seq<VpnConnectionInfoView> {
    Seq::new(vpns.len(), |i: int| list_entry(vpns[i]@, active))
}

/// Builds the connection listing; the connection `active` is marked active.
pub fn build_list_response(vpns: &[String], active: Option<&str>) -> (r: IpcResponse)
    ensures
        r@ == (IpcResponseView::Connections { connections: list_spec(vpns@, opt_str_view(active)) }),
{
    let ghost act = opt_str_view(active);
    let mut connections: Vec<VpnConnectionInfo> = Vec::new();
    let n = vpns.len();
    for i in 0..n
        invariant
            n == vpns@.len(),
            act == opt_str_view(active),
            connections@.len() == i,
            forall|k: int|
                0 <= k < i ==> (#[trigger] connections@[k])@ == list_entry(vpns@[k]@, act),
    {
        let name = &vpns[i];
        let is_active = match active {
            Some(a) => str_eq(name.as_str(), a),
            None => false,
        };
        let status = if is_active {
            String::from_str("active")
        } else {
            String::from_str("available")
        };
        connections.push(VpnConnectionInfo { name: name.clone(), vpn_type: String::new(), status });
    }
    let r = IpcResponse::Connections { connections };
    proof {
        assert(connections@.map_values(|c: VpnConnectionInfo| c@) =~= list_spec(vpns@, act));
    }
    r
}

/// Whether connecting to `target` needs the current connection dropped first.
pub open spec fn needs_disconnect_spec(s: VpnStateView, target: Seq<char>) -> bool {
    match s {
        VpnStateView::Connected { server } => server != target,
        VpnStateView::Connecting { server } => server != target,
        _ => false,
    }
}

/// Whether connecting to `target` needs the current connection dropped first.
pub fn needs_disconnect_first(current_state: &VpnState, target: &str) -> (r: bool)
    ensures
        r == needs_disconnect_spec(current_state@, target@),
{
    match current_state {
        VpnState::Connected { server } => !str_eq(server.as_str(), target),
        VpnState::Connecting { server } => !str_eq(server.as_str(), target),
        _ => false,
    }
}

/// The verdict on a request to connect to `name`.
pub open spec fn validate_connect_spec(
    name: Seq<char>,
    available: Seq<Seq<char>>,
    s: VpnStateView,
) -> Result<(), Seq<char>> {
    if name.len() == 0 {
        Err("VPN name cannot be empty"@)
    } else if !available.contains(name) {
        Err("VPN '"@ + name + "' not found"@)
    } else if s == (VpnStateView::Connected { server: name }) {
        Err("Already connected to '"@ + name + "'"@)
    } else {
        Ok(())
    }
}

/// Checks a request to connect to `vpn_name` against the available
/// connections and the current state.
pub fn validate_connect(vpn_name: &str, available: &[String], current_state: &VpnState) -> (r:
    Result<(), String>)
    ensures
        match validate_connect_spec(
            vpn_name@,
            available@.map_values(|v: String| v@),
            current_state@,
        ) {
            Ok(()) => r is Ok,
            Err(m) => r matches Err(e) && e@ == m,
        },
{
    let ghost names = available@.map_values(|v: String| v@);
    if vpn_name.unicode_len() == 0 {
        return Err(String::from_str("VPN name cannot be empty"));
    }
    let mut found = false;
    let n = available.len();
    for i in 0..n
        invariant
            n == available@.len(),
            names == available@.map_values(|v: String| v@),
            found <==> exists|k: int| 0 <= k < i && names[k] == vpn_name@,
    {
        let hit = str_eq(available[i].as_str(), vpn_name);
        proof {
            assert(names[i as int] == available@[i as int]@);
            if hit {
                assert(0 <= i < i + 1 && names[i as int] == vpn_name@);
            }
            if !hit {
                assert forall|k: int| 0 <= k < i + 1 && names[k] == vpn_name@ implies 0 <= k < i by {
                    if k == i {
                        assert(names[k] != vpn_name@);
                    }
                }
            }
        }
        if hit {
            found = true;
        }
    }
    if !found {
        proof {
            assert forall|k: int| 0 <= k < names.len() implies names[k] != vpn_name@ by {}
        }
        let mut m = String::from_str("VPN '");
        m.append(vpn_name);
        m.append("' not found");
        return Err(m);
    }
    if let VpnState::Connected { server } = current_state {
        if str_eq(server.as_str(), vpn_name) {
            let mut m = String::from_str("Already connected to '");
            m.append(vpn_name);
            m.append("'");
            return Err(m);
        }
    }
    Ok(())
}

/// What the supervisor should do in response to a NetworkManager event.
#[derive(Debug, PartialEq)]
pub enum StateAction {
    /// No action needed.
    NoAction,
    /// Mark the VPN as connected.
    MarkConnected(String),
    /// Mark the VPN as disconnected.
    MarkDisconnected,
    /// The connection failed or dropped: reconnect.
    TriggerReconnect(String),
    /// The connection failed: mark it failed (no reconnect).
    MarkFailed { server: String, reason: String },
}

/// `StateAction` with its strings taken as character sequences.
pub enum StateActionView {
    NoAction,
    MarkConnected(Seq<char>),
    MarkDisconnected,
    TriggerReconnect(Seq<char>),
    MarkFailed { server: Seq<char>, reason: Seq<char> },
}

impl View for StateAction {
    type V = StateActionView;

    open spec fn view(&self) -> StateActionView {
        match self {
            StateAction::NoAction => StateActionView::NoAction,
            StateAction::MarkConnected(s) => StateActionView::MarkConnected(s@),
            StateAction::MarkDisconnected => StateActionView::MarkDisconnected,
            StateAction::TriggerReconnect(s) => StateActionView::TriggerReconnect(s@),
            StateAction::MarkFailed { server, reason } => StateActionView::MarkFailed {
                server: server@,
                reason: reason@,
            },
        }
    }
}

/// The action for NetworkManager event `e` in state `s`.
pub open spec fn classify_spec(e: NmEventView, s: VpnStateView, auto_reconnect: bool) -> StateActionView {
    match e {
        NmEventView::VpnActivated { name } => StateActionView::MarkConnected(name),
        NmEventView::VpnActivating { .. } => StateActionView::NoAction,
        NmEventView::ConnectivityChanged { .. } => StateActionView::NoAction,
        NmEventView::VpnDeactivated { name } => if auto_reconnect && s is Connected {
            StateActionView::TriggerReconnect(name)
        } else {
            StateActionView::MarkDisconnected
        },
        NmEventView::VpnFailed { name, reason } => if auto_reconnect {
            StateActionView::TriggerReconnect(name)
        } else {
            StateActionView::MarkFailed { server: name, reason }
        },
    }
}

/// Classifies a NetworkManager event into what the supervisor should do.
pub fn classify_nm_event(event: &NmEvent, current_state: &VpnState, auto_reconnect: bool) -> (r:
    StateAction)
    ensures
        r@ == classify_spec(event@, current_state@, auto_reconnect),
{
    match event {
        NmEvent::VpnActivated { name } => StateAction::MarkConnected(name.clone()),
        NmEvent::VpnActivating { .. } => StateAction::NoAction,
        NmEvent::ConnectivityChanged { .. } => StateAction::NoAction,
        NmEvent::VpnDeactivated { name } => {
            if auto_reconnect && matches!(current_state, VpnState::Connected { .. }) {
                StateAction::TriggerReconnect(name.clone())
            } else {
                StateAction::MarkDisconnected
            }
        },
        NmEvent::VpnFailed { name, reason } => {
            if auto_reconnect {
                StateAction::TriggerReconnect(name.clone())
            } else {
                StateAction::MarkFailed { server: name.clone(), reason: reason.clone() }
            }
        },
    }
}

/// A status answer says the VPN is connected exactly while the state is
/// Connected or Degraded: never while it is down, connecting or being
/// reconnected. It names the server whenever the state has one, and no
/// server only when disconnected.
pub proof fn lemma_status_connected_only_when_up(s: VpnStateView, kill_switch_enabled: bool)
    ensures
        status_response_spec(s, kill_switch_enabled) matches IpcResponseView::Status {
            connected,
            vpn_name,
            kill_switch_enabled: k,
            ..
        } && connected == (s is Connected || s is Degraded) && k == kill_switch_enabled && (
        vpn_name is None <==> s is Disconnected),
        s is Reconnecting ==> status_response_spec(s, kill_switch_enabled) matches IpcResponseView::Status {
            connected: false,
            ..
        },
        s matches VpnStateView::Reconnecting { server, .. } ==> status_response_spec(
            s,
            kill_switch_enabled,
        ) matches IpcResponseView::Status { vpn_name: Some(n), .. } && n == server,
{
}

/// A deactivated VPN is reconnected only when auto-reconnect is on and the
/// supervisor was connected; in every other state (connecting to another
/// VPN, disconnected, failed, ...) it is only marked disconnected.
pub proof fn lemma_deactivated_reconnects_only_when_connected(
    name: Seq<char>,
    s: VpnStateView,
    auto_reconnect: bool,
)
    ensures
        classify_spec(NmEventView::VpnDeactivated { name }, s, auto_reconnect) == if auto_reconnect
            && (s matches VpnStateView::Connected { .. }) {
            StateActionView::TriggerReconnect(name)
        } else {
            StateActionView::MarkDisconnected
        },
        !(s matches VpnStateView::Connected { .. }) ==> classify_spec(
            NmEventView::VpnDeactivated { name },
            s,
            auto_reconnect,
        ) == StateActionView::MarkDisconnected,
{
}

} // verus!
