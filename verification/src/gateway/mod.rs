//! Gateway mode: the machine routes its LAN through the VPN, with NAT and
//! a kill switch on the FORWARD chain.
use vstd::prelude::*;

pub mod rule_builder;
pub mod status_fmt;

verus! {
} // verus!
