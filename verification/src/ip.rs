//! IP addresses as the kill switch reads them: the family and the
//! canonical text (what `IpAddr`'s `Display` writes). Parsing and printing
//! addresses happens where the program reads command output; the library
//! only compares and places the texts.
use vstd::prelude::*;

use crate::text::str_eq;

verus! {

/// The family of an IP address.
#[derive(Debug, Clone, Copy, PartialEq, Eq, Structural)]
pub enum IpFamily {
    V4,
    V6,
}

/// An IP address: its family and its canonical text.
#[derive(Debug, PartialEq)]
pub struct ServerIp {
    pub family: IpFamily,
    pub text: String,
}

impl View for ServerIp {
    type V = (IpFamily, Seq<char>);

    open spec fn view(&self) -> (IpFamily, Seq<char>) {
        (self.family, self.text@)
    }
}

impl Clone for ServerIp {
    fn clone(&self) -> (r: Self)
        ensures
            r@ == self@,
    {
        ServerIp { family: self.family, text: self.text.clone() }
    }
}

/// The views of a sequence of addresses.
pub open spec fn ips_view(v: Seq<ServerIp>) -> Seq<(IpFamily, Seq<char>)> {
    v.map_values(|i: ServerIp| i@)
}

/// Whether two addresses are the same (canonical texts are unique).
pub fn same_ip(a: &ServerIp, b: &ServerIp) -> (r: bool)
    ensures
        r == (a@ == b@),
{
    a.family == b.family && str_eq(a.text.as_str(), b.text.as_str())
}

/// Adds `ip` to `ips` unless it is already there.
pub fn push_unique(ips: &mut Vec<ServerIp>, ip: ServerIp)
    ensures
        ips_view(old(ips)@).contains(ip@) ==> ips_view(final(ips)@) == ips_view(old(ips)@),
        !ips_view(old(ips)@).contains(ip@) ==> ips_view(final(ips)@) == ips_view(old(ips)@).push(
            ip@,
        ),
{
    let ghost v = ips_view(ips@);
    let n = ips.len();
    for i in 0..n
        invariant
            n == ips@.len(),
            v == ips_view(ips@),
            forall|k: int| 0 <= k < i ==> v[k] != ip@,
    {
        if same_ip(&ips[i], &ip) {
            proof {
                assert(v[i as int] == ip@);
            }
            return;
        }
    }
    proof {
        assert(!v.contains(ip@));
    }
    let ghost old_v = ips@;
    ips.push(ip);
    proof {
        assert(ips_view(ips@) =~= ips_view(old_v).push(ip@));
    }
}

} // verus!
