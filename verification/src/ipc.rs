//! Messages between the command-line client and the running supervisor.
use vstd::prelude::*;

verus! {

/// A VPN connection as listed to the client.
#[derive(Debug, PartialEq)]
pub struct VpnConnectionInfo {
    pub name: String,
    pub vpn_type: String,
    pub status: String,
}

/// `VpnConnectionInfo` with its strings taken as character sequences.
pub struct VpnConnectionInfoView {
    pub name: Seq<char>,
    pub vpn_type: Seq<char>,
    pub status: Seq<char>,
}

impl View for VpnConnectionInfo {
    type V = VpnConnectionInfoView;

    open spec fn view(&self) -> VpnConnectionInfoView {
        VpnConnectionInfoView { name: self.name@, vpn_type: self.vpn_type@, status: self.status@ }
    }
}

/// A request from the client.
#[derive(Debug, PartialEq)]
pub enum IpcCommand {
    Status,
    Connect { name: String },
}

/// An answer to the client.
#[derive(Debug, PartialEq)]
pub enum IpcResponse {
    /// The request was carried out.
    Success,
    Error { message: String },
    Status {
        connected: bool,
        vpn_name: Option<String>,
        vpn_type: Option<String>,
        state: String,
        kill_switch_enabled: bool,
    },
    Connections { connections: Vec<VpnConnectionInfo> },
}

/// `IpcResponse` with its strings taken as character sequences.
pub enum IpcResponseView {
    Success,
    Error { message: Seq<char> },
    Status {
        connected: bool,
        vpn_name: Option<Seq<char>>,
        vpn_type: Option<Seq<char>>,
        state: Seq<char>,
        kill_switch_enabled: bool,
    },
    Connections { connections: Seq<VpnConnectionInfoView> },
}

/// The view of an optional string slice.
pub open spec fn opt_str_view(o: Option<&str>) -> Option<Seq<char>> {
    match o {
        Some(s) => Some(s@),
        None => None,
    }
}

/// The view of an optional string.
pub open spec fn opt_view(o: Option<String>) -> Option<Seq<char>> {
    match o {
        Some(s) => Some(s@),
        None => None,
    }
}

impl View for IpcResponse {
    type V = IpcResponseView;

    open spec fn view(&self) -> IpcResponseView {
        match self {
            IpcResponse::Success => IpcResponseView::Success,
            IpcResponse::Error { message } => IpcResponseView::Error { message: message@ },
            IpcResponse::Status { connected, vpn_name, vpn_type, state, kill_switch_enabled } =>
                IpcResponseView::Status {
                connected: *connected,
                vpn_name: opt_view(*vpn_name),
                vpn_type: opt_view(*vpn_type),
                state: state@,
                kill_switch_enabled: *kill_switch_enabled,
            },
            IpcResponse::Connections { connections } => IpcResponseView::Connections {
                connections: connections@.map_values(|c: VpnConnectionInfo| c@),
            },
        }
    }
}

} // verus!
