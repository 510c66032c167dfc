//! Leak-protection settings of the kill switch.
use vstd::prelude::*;

verus! {

/// Where DNS queries may go while the kill switch is on.
#[derive(Debug, Clone, Copy, PartialEq, Eq, Structural)]
pub enum DnsMode {
    /// DNS only through the VPN tunnel interfaces (most secure).
    Tunnel,
    /// DNS only to the local resolver (127.0.0.0/8, 127.0.0.53).
    Localhost,
    /// DNS to any destination (legacy, least secure).
    Any,
}

/// How IPv6 traffic is handled while the kill switch is on.
#[derive(Debug, Clone, Copy, PartialEq, Eq, Structural)]
pub enum Ipv6Mode {
    /// Drop all IPv6 except loopback (most secure).
    Block,
    /// Allow IPv6 only through the VPN tunnel interfaces.
    Tunnel,
    /// No IPv6 rules (legacy).
    Off,
}

impl Default for DnsMode {
    /// The secure default: DNS only through the tunnel.
    fn default() -> (r: Self)
        ensures
            r == DnsMode::Tunnel,
    {
        DnsMode::Tunnel
    }
}

impl Default for Ipv6Mode {
    /// The secure default: IPv6 blocked.
    fn default() -> (r: Self)
        ensures
            r == Ipv6Mode::Block,
    {
        Ipv6Mode::Block
    }
}

} // verus!
