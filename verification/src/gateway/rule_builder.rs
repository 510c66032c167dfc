//! Gateway rules: the iptables rules that route a LAN through the VPN, as
//! data and as iptables arguments, built without running anything.
use vstd::prelude::*;

use crate::text::{str_eq, trim, trim_str, views};

verus! {

/// A gateway iptables rule.
#[derive(Debug, Clone, PartialEq)]
pub enum GatewayRule {
    /// FORWARD from LAN to VPN with an action.
    Forward { in_iface: String, out_iface: String, action: String },
    /// FORWARD for one client, by its source address.
    ForwardClient { in_iface: String, out_iface: String, source: String },
    /// Return traffic (ESTABLISHED, RELATED).
    Related { in_iface: String, out_iface: String },
    /// NAT MASQUERADE on the outgoing interface.
    Masquerade { out_iface: String },
}

/// A gateway rule over character sequences.
pub ghost enum GatewayRuleView {
    Forward { in_iface: Seq<char>, out_iface: Seq<char>, action: Seq<char> },
    ForwardClient { in_iface: Seq<char>, out_iface: Seq<char>, source: Seq<char> },
    Related { in_iface: Seq<char>, out_iface: Seq<char> },
    Masquerade { out_iface: Seq<char> },
}

impl View for GatewayRule {
    type V = GatewayRuleView;

    open spec fn view(&self) -> GatewayRuleView {
        match self {
            GatewayRule::Forward { in_iface, out_iface, action } => GatewayRuleView::Forward {
                in_iface: in_iface@,
                out_iface: out_iface@,
                action: action@,
            },
            GatewayRule::ForwardClient { in_iface, out_iface, source } =>
                GatewayRuleView::ForwardClient {
                in_iface: in_iface@,
                out_iface: out_iface@,
                source: source@,
            },
            GatewayRule::Related { in_iface, out_iface } => GatewayRuleView::Related {
                in_iface: in_iface@,
                out_iface: out_iface@,
            },
            GatewayRule::Masquerade { out_iface } => GatewayRuleView::Masquerade {
                out_iface: out_iface@,
            },
        }
    }
}

/// The views of a sequence of rules.
pub open spec fn rules_view(rules: Seq<GatewayRule>) -> Seq<GatewayRuleView> {
    rules.map_values(|r: GatewayRule| r@)
}

/// The iptables arguments of a rule.
pub open spec fn rule_args(rule: GatewayRuleView) -> Seq<Seq<char>> {
    match rule {
        GatewayRuleView::Forward { in_iface, out_iface, action } => seq![
            "-A"@,
            "FORWARD"@,
            "-i"@,
            in_iface,
            "-o"@,
            out_iface,
            "-j"@,
            action,
        ],
        GatewayRuleView::ForwardClient { in_iface, out_iface, source } => seq![
            "-A"@,
            "FORWARD"@,
            "-i"@,
            in_iface,
            "-o"@,
            out_iface,
            "-s"@,
            source,
            "-j"@,
            "ACCEPT"@,
        ],
        GatewayRuleView::Related { in_iface, out_iface } => seq![
            "-A"@,
            "FORWARD"@,
            "-i"@,
            in_iface,
            "-o"@,
            out_iface,
            "-m"@,
            "state"@,
            "--state"@,
            "RELATED,ESTABLISHED"@,
            "-j"@,
            "ACCEPT"@,
        ],
        GatewayRuleView::Masquerade { out_iface } => seq![
            "-t"@,
            "nat"@,
            "-A"@,
            "POSTROUTING"@,
            "-o"@,
            out_iface,
            "-j"@,
            "MASQUERADE"@,
        ],
    }
}

fn push_str(v: &mut Vec<String>, s: &str)
    ensures
        views(final(v)@) == views(old(v)@).push(s@),
{
    v.push(String::from_str(s));
    proof {
        assert(views(final(v)@) =~= views(old(v)@).push(s@));
    }
}

impl GatewayRule {
    /// The rule as iptables arguments.
    pub fn to_args(&self) -> (r: Vec<String>)
        ensures
            views(r@) == rule_args(self@),
    {
        let mut v: Vec<String> = Vec::new();
        proof {
            assert(views(v@) =~= Seq::<Seq<char>>::empty());
        }
        match self {
            GatewayRule::Forward { in_iface, out_iface, action } => {
                push_str(&mut v, "-A");
                push_str(&mut v, "FORWARD");
                push_str(&mut v, "-i");
                push_str(&mut v, in_iface.as_str());
                push_str(&mut v, "-o");
                push_str(&mut v, out_iface.as_str());
                push_str(&mut v, "-j");
                push_str(&mut v, action.as_str());
            },
            GatewayRule::ForwardClient { in_iface, out_iface, source } => {
                push_str(&mut v, "-A");
                push_str(&mut v, "FORWARD");
                push_str(&mut v, "-i");
                push_str(&mut v, in_iface.as_str());
                push_str(&mut v, "-o");
                push_str(&mut v, out_iface.as_str());
                push_str(&mut v, "-s");
                push_str(&mut v, source.as_str());
                push_str(&mut v, "-j");
                push_str(&mut v, "ACCEPT");
            },
            GatewayRule::Related { in_iface, out_iface } => {
                push_str(&mut v, "-A");
                push_str(&mut v, "FORWARD");
                push_str(&mut v, "-i");
                push_str(&mut v, in_iface.as_str());
                push_str(&mut v, "-o");
                push_str(&mut v, out_iface.as_str());
                push_str(&mut v, "-m");
                push_str(&mut v, "state");
                push_str(&mut v, "--state");
                push_str(&mut v, "RELATED,ESTABLISHED");
                push_str(&mut v, "-j");
                push_str(&mut v, "ACCEPT");
            },
            GatewayRule::Masquerade { out_iface } => {
                push_str(&mut v, "-t");
                push_str(&mut v, "nat");
                push_str(&mut v, "-A");
                push_str(&mut v, "POSTROUTING");
                push_str(&mut v, "-o");
                push_str(&mut v, out_iface.as_str());
                push_str(&mut v, "-j");
                push_str(&mut v, "MASQUERADE");
            },
        }
        proof {
            assert(views(v@) =~= rule_args(self@));
        }
        v
    }
}

/// The standard gateway rules for routing the LAN through the VPN.
pub open spec fn gateway_rules_spec(lan: Seq<char>, vpn: Seq<char>) -> Seq<GatewayRuleView> {
    seq![
        GatewayRuleView::Forward { in_iface: lan, out_iface: vpn, action: "ACCEPT"@ },
        GatewayRuleView::Related { in_iface: vpn, out_iface: lan },
        GatewayRuleView::Masquerade { out_iface: vpn },
    ]
}

/// Builds the standard set of gateway rules for LAN to VPN routing.
pub fn build_gateway_rules(lan: &str, vpn: &str) -> (r: Vec<GatewayRule>)
    ensures
        rules_view(r@) == gateway_rules_spec(lan@, vpn@),
{
    let r = vec![
        GatewayRule::Forward {
            in_iface: String::from_str(lan),
            out_iface: String::from_str(vpn),
            action: String::from_str("ACCEPT"),
        },
        GatewayRule::Related { in_iface: String::from_str(vpn), out_iface: String::from_str(lan) },
        GatewayRule::Masquerade { out_iface: String::from_str(vpn) },
    ];
    proof {
        assert(rules_view(r@) =~= gateway_rules_spec(lan@, vpn@));
    }
    r
}

/// The rule that forwards one client's traffic.
pub open spec fn client_rule(lan: Seq<char>, vpn: Seq<char>, source: Seq<char>) -> GatewayRuleView {
    GatewayRuleView::ForwardClient { in_iface: lan, out_iface: vpn, source }
}

/// Gateway rules restricted to the given source addresses: one forward
/// rule per source, in order, then the return traffic and the NAT rule.
pub open spec fn client_rules_spec(lan: Seq<char>, vpn: Seq<char>, sources: Seq<Seq<char>>) -> Seq<
    GatewayRuleView,
> {
    sources.map_values(|s: Seq<char>| client_rule(lan, vpn, s)) + seq![
        GatewayRuleView::Related { in_iface: vpn, out_iface: lan },
        GatewayRuleView::Masquerade { out_iface: vpn },
    ]
}

/// Builds gateway rules restricted to specific source addresses.
pub fn build_client_rules(lan: &str, vpn: &str, sources: &[String]) -> (r: Vec<GatewayRule>)
    ensures
        rules_view(r@) == client_rules_spec(lan@, vpn@, views(sources@)),
{
    let mut rules: Vec<GatewayRule> = Vec::new();
    let mut i: usize = 0;
    while i < sources.len()
        invariant
            i <= sources@.len(),
            rules_view(rules@) =~= views(sources@).take(i as int).map_values(
                |s: Seq<char>| client_rule(lan@, vpn@, s),
            ),
        decreases sources@.len() - i,
    {
        let rule = GatewayRule::ForwardClient {
            in_iface: String::from_str(lan),
            out_iface: String::from_str(vpn),
            source: sources[i].clone(),
        };
        let ghost before = rules@;
        rules.push(rule);
        proof {
            let f = |s: Seq<char>| client_rule(lan@, vpn@, s);
            assert(views(sources@).take(i + 1) =~= views(sources@).take(i as int).push(
                sources@[i as int]@,
            ));
            assert(views(sources@).take(i + 1).map_values(f) =~= views(sources@).take(
                i as int,
            ).map_values(f).push(f(sources@[i as int]@)));
            assert(rules_view(rules@) =~= rules_view(before).push(rules@[i as int]@));
        }
        i = i + 1;
    }
    proof {
        assert(views(sources@).take(i as int) =~= views(sources@));
    }
    rules.push(GatewayRule::Related { in_iface: String::from_str(vpn), out_iface: String::from_str(lan) });
    rules.push(GatewayRule::Masquerade { out_iface: String::from_str(vpn) });
    proof {
        assert(rules_view(rules@) =~= client_rules_spec(lan@, vpn@, views(sources@)));
    }
    rules
}

/// Every client rule forwards from the LAN to the VPN, and the rule sets
/// always end with the return traffic and the NAT rule on the VPN.
pub proof fn lemma_client_rules_shape(lan: Seq<char>, vpn: Seq<char>, sources: Seq<Seq<char>>)
    ensures
        client_rules_spec(lan, vpn, sources).len() == sources.len() + 2,
        forall|i: int|
            0 <= i < sources.len() ==> #[trigger] client_rules_spec(lan, vpn, sources)[i]
                == client_rule(lan, vpn, sources[i]),
        client_rules_spec(lan, vpn, sources).last() == (GatewayRuleView::Masquerade {
            out_iface: vpn,
        }),
        gateway_rules_spec(lan, vpn).last() == (GatewayRuleView::Masquerade { out_iface: vpn }),
{
}

/// NAT is needed: the interfaces are both named, and differ.
pub open spec fn nat_required_spec(lan: Seq<char>, vpn: Seq<char>) -> bool {
    lan.len() > 0 && vpn.len() > 0 && lan != vpn
}

/// Whether NAT is required: the interfaces are different and non-empty.
pub fn nat_required(lan: &str, vpn: &str) -> (r: bool)
    ensures
        r == nat_required_spec(lan@, vpn@),
{
    lan.unicode_len() > 0 && vpn.unicode_len() > 0 && !str_eq(lan, vpn)
}

/// Forwarding state, as read from `/proc/sys/net/ipv4/ip_forward`.
#[derive(Debug, Clone, Copy, PartialEq, Eq)]
pub enum ForwardingState {
    Enabled,
    Disabled,
    Unknown,
}

/// The state a value of `/proc/sys/net/ipv4/ip_forward` stands for.
pub open spec fn forwarding_spec(value: Seq<char>) -> ForwardingState {
    if trim(value) == "1"@ {
        ForwardingState::Enabled
    } else if trim(value) == "0"@ {
        ForwardingState::Disabled
    } else {
        ForwardingState::Unknown
    }
}

impl ForwardingState {
    /// Parses the content of `/proc/sys/net/ipv4/ip_forward`.
    pub fn from_proc(value: &str) -> (r: Self)
        ensures
            r == forwarding_spec(value@),
    {
        let t = trim_str(value);
        if str_eq(t.as_str(), "1") {
            ForwardingState::Enabled
        } else if str_eq(t.as_str(), "0") {
            ForwardingState::Disabled
        } else {
            ForwardingState::Unknown
        }
    }

    /// Whether forwarding is on.
    pub fn is_enabled(&self) -> (r: bool)
        ensures
            r == (*self == ForwardingState::Enabled),
    {
        match self {
            ForwardingState::Enabled => true,
            _ => false,
        }
    }
}

} // verus!
