//! The VPN kill switch: firewall rules that block traffic outside the tunnel.
use vstd::prelude::*;

pub mod cleanup;
pub mod firewall;
pub mod paths;

verus! {
} // verus!
