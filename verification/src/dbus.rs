//! Events that NetworkManager signals about VPN connections.
use vstd::prelude::*;

verus! {

/// A NetworkManager event about a VPN connection or connectivity.
#[derive(Debug, PartialEq)]
pub enum NmEvent {
    VpnActivated { name: String },
    VpnActivating { name: String },
    VpnDeactivated { name: String },
    VpnFailed { name: String, reason: String },
    ConnectivityChanged { connected: bool },
}

/// `NmEvent` with its strings taken as character sequences.
pub enum NmEventView {
    VpnActivated { name: Seq<char> },
    VpnActivating { name: Seq<char> },
    VpnDeactivated { name: Seq<char> },
    VpnFailed { name: Seq<char>, reason: Seq<char> },
    ConnectivityChanged { connected: bool },
}

impl View for NmEvent {
    type V = NmEventView;

    open spec fn view(&self) -> NmEventView {
        match self {
            NmEvent::VpnActivated { name } => NmEventView::VpnActivated { name: name@ },
            NmEvent::VpnActivating { name } => NmEventView::VpnActivating { name: name@ },
            NmEvent::VpnDeactivated { name } => NmEventView::VpnDeactivated { name: name@ },
            NmEvent::VpnFailed { name, reason } => NmEventView::VpnFailed {
                name: name@,
                reason: reason@,
            },
            NmEvent::ConnectivityChanged { connected } => NmEventView::ConnectivityChanged {
                connected: *connected,
            },
        }
    }
}

} // verus!
