//! Reading what NetworkManager reports about active connections.
use vstd::prelude::*;

use crate::state::{ActiveVpnInfo, NmVpnState};
use crate::text::{lines, lines_of, split, split_str, str_eq, views};

verus! {

/// The connection state named in nmcli's terse output.
pub open spec fn nm_state_spec(s: Seq<char>) -> NmVpnState {
    if s == "activated"@ {
        NmVpnState::Activated
    } else if s == "activating"@ {
        NmVpnState::Activating
    } else if s == "deactivating"@ {
        NmVpnState::Deactivating
    } else {
        NmVpnState::Inactive
    }
}

/// The VPN connection on a line of
/// `nmcli -t -f NAME,TYPE,STATE connection show --active`, if the line
/// describes a VPN or WireGuard connection.
pub open spec fn active_of_line(l: Seq<char>) -> Option<(Seq<char>, NmVpnState)> {
    let parts = split(l, ':');
    if parts.len() >= 3 && (parts[1] == "vpn"@ || parts[1] == "wireguard"@) {
        Some((parts[0], nm_state_spec(parts[2])))
    } else {
        None
    }
}

/// The active VPN connections on the lines `ls`, in order.
pub open spec fn active_vpns_spec(ls: Seq<Seq<char>>) -> Seq<(Seq<char>, NmVpnState)>
    decreases ls.len(),
{
    if ls.len() == 0 {
        seq![]
    } else {
        active_vpns_spec(ls.drop_last()) + match active_of_line(ls.last()) {
            Some(a) => seq![a],
            None => seq![],
        }
    }
}

/// The views of a sequence of active connections.
pub open spec fn actives_view(v: Seq<ActiveVpnInfo>) -> Seq<(Seq<char>, NmVpnState)> {
    v.map_values(|a: ActiveVpnInfo| a@)
}

fn nm_state(s: &str) -> (r: NmVpnState)
    ensures
        r == nm_state_spec(s@),
{
    if str_eq(s, "activated") {
        NmVpnState::Activated
    } else if str_eq(s, "activating") {
        NmVpnState::Activating
    } else if str_eq(s, "deactivating") {
        NmVpnState::Deactivating
    } else {
        NmVpnState::Inactive
    }
}

fn active_of_line_exec(l: &str) -> (r: Option<ActiveVpnInfo>)
    ensures
        match r {
            Some(a) => active_of_line(l@) == Some(a@),
            None => active_of_line(l@) is None,
        },
{
    let parts = split_str(l, ':');
    if parts.len() >= 3 {
        proof {
            assert(views(parts@)[0] == parts@[0]@);
            assert(views(parts@)[1] == parts@[1]@);
            assert(views(parts@)[2] == parts@[2]@);
        }
        if str_eq(parts[1].as_str(), "vpn") || str_eq(parts[1].as_str(), "wireguard") {
            return Some(
                ActiveVpnInfo { name: parts[0].clone(), state: nm_state(parts[2].as_str()) },
            );
        }
    }
    None
}

/// The active VPN and WireGuard connections in the output of
/// `nmcli -t -f NAME,TYPE,STATE connection show --active`, in order, with
/// their states.
pub fn parse_active_vpns(output: &str) -> (r: Vec<ActiveVpnInfo>)
    ensures
        actives_view(r@) == active_vpns_spec(lines(output@)),
{
    let ls = lines_of(output);
    let ghost v = views(ls@);
    let mut out: Vec<ActiveVpnInfo> = Vec::new();
    let n = ls.len();
    proof {
        assert(actives_view(out@) =~= active_vpns_spec(v.take(0)));
    }
    for i in 0..n
        invariant
            n == ls@.len(),
            v == views(ls@),
            actives_view(out@) == active_vpns_spec(v.take(i as int)),
    {
        let a = active_of_line_exec(ls[i].as_str());
        proof {
            assert(v[i as int] == ls@[i as int]@);
            let t = v.take(i + 1);
            assert(t.drop_last() =~= v.take(i as int));
            assert(t.last() == v[i as int]);
        }
        let ghost before = out@;
        match a {
            Some(x) => {
                let ghost xv = x@;
                out.push(x);
                proof {
                    assert(actives_view(out@) =~= actives_view(before).push(xv));
                }
            },
            None => {},
        }
        proof {
            assert(actives_view(out@) =~= active_vpns_spec(v.take(i + 1)));
        }
    }
    proof {
        assert(v.take(n as int) =~= v);
    }
    out
}

} // verus!
